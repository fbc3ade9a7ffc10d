//! The event IR builder.
//!
//! An event is built from a struct-like declaration in one validating pass:
//! the struct-level annotations must be exactly one event marker, the struct
//! must be public and non-generic, and each field may carry at most the
//! topic marker from the DSL vocabulary. The resulting [`Event`] is
//! immutable and retains only the non-DSL annotations of the struct and of
//! its fields, with each field's topic flag precomputed.

use crate::attrs::flat_args;
use crate::attrs::first_duplicate_at;
use crate::attrs::first_ink_at;
use crate::attrs::first_malformed_at;
use crate::attrs::has_duplicate;
use crate::attrs::has_malformed;
use crate::attrs::others_of;
use crate::attrs::raw_args;
use crate::attrs::raw_is_ink;
use crate::attrs::raw_is_malformed;
use crate::attrs::raw_span;
use crate::attrs::sanitize_attributes;
use crate::attrs::sanitize_err_spec;
use crate::attrs::sanitize_ok;
use crate::attrs::Attribute;
use crate::attrs::AttributeArgKind;
use crate::attrs::ConflictRule;
use crate::attrs::InkAttribute;
use crate::attrs::KindTag;
use crate::attrs::OtherAttribute;
use crate::attrs::Span;
use crate::attrs::contains_ink_attributes;
use crate::attrs::first_ink_attribute;
use crate::attrs::partition_attributes;
use crate::diagnostic::Diagnostic;
use crate::diagnostic::DiagnosticKind;
use crate::item::Field;
use crate::item::ItemStruct;
use crate::item::Visibility;
use crate::item::VisibilityKind;
use vstd::prelude::*;

verus! {

/// The struct-level conflict rule for events: at that level only the event
/// kind itself is legal, so every kind with a different tag conflicts.
pub struct EventLevelRule;

impl ConflictRule for EventLevelRule {
    open spec fn spec_conflicts(&self, kind: AttributeArgKind) -> bool {
        kind.spec_tag() != KindTag::Event
    }

    fn conflicts(&self, kind: &AttributeArgKind) -> (r: bool) {
        kind.tag() != KindTag::Event
    }
}

/// The flattened DSL annotation instances on one field.
pub open spec fn field_dsl_args(f: Field) -> Seq<Attribute> {
    flat_args(f.attrs@)
}

/// Whether a field passes the event field grammar: its DSL annotations, if
/// it has any, are well-formed, free of duplicates, start with the topic
/// marker and contain no other kind.
pub open spec fn field_ok(f: Field) -> bool {
    let args = field_dsl_args(f);
    &&& !has_malformed(f.attrs@)
    &&& (args.len() > 0 ==> {
        &&& !has_duplicate(args)
        &&& args[0].kind.spec_tag() == KindTag::Topic
        &&& forall|i: int|
            0 <= i < args.len() ==> (#[trigger] args[i]).kind.spec_tag() == KindTag::Topic
    })
}

/// Whether a field is a topic field: its leading DSL annotation, if it has
/// one, is the topic marker. A field with no DSL annotations is not a topic.
pub open spec fn field_is_topic(f: Field) -> bool {
    let args = field_dsl_args(f);
    args.len() > 0 && args[0].kind.spec_tag() == KindTag::Topic
}

/// Position `i` holds the first DSL annotation on a field whose kind is not
/// the topic marker.
pub open spec fn first_nontopic_at(args: Seq<Attribute>, i: int) -> bool {
    &&& 0 <= i < args.len()
    &&& args[i].kind.spec_tag() != KindTag::Topic
    &&& forall|j: int| 0 <= j < i ==> (#[trigger] args[j]).kind.spec_tag() == KindTag::Topic
}

/// The diagnostic a failed field validation reports: the first violation in
/// checking order. A duplicate found while normalizing the field's
/// annotations is chained with the enclosing field's position.
pub open spec fn field_err_spec(d: Diagnostic, f: Field) -> bool {
    let args = field_dsl_args(f);
    if has_malformed(f.attrs@) {
        &&& d.kind == DiagnosticKind::MalformedAttribute
        &&& exists|i: int| first_malformed_at(f.attrs@, i) && d.span == raw_span(f.attrs@[i])
        &&& d.notes@ == Seq::<Span>::empty()
    } else if has_duplicate(args) {
        &&& d.kind == DiagnosticKind::DuplicateAttribute
        &&& exists|j: int| first_duplicate_at(args, j) && d.span == args[j].span
        &&& d.notes@ == seq![f.span]
    } else if args.len() > 0 && args[0].kind.spec_tag() != KindTag::Topic {
        &&& d.kind == DiagnosticKind::InvalidFieldAttributeOrder
        &&& d.span == f.span
        &&& d.notes@ == Seq::<Span>::empty()
    } else {
        &&& d.kind == DiagnosticKind::ConflictingFieldAttribute
        &&& exists|i: int| first_nontopic_at(args, i) && d.span == args[i].span
        &&& d.notes@ == Seq::<Span>::empty()
    }
}

/// Whether a struct-like declaration passes the whole event grammar.
pub open spec fn event_ok(item: ItemStruct) -> bool {
    &&& sanitize_ok(item.attrs@, KindTag::Event, &EventLevelRule)
    &&& item.generics@.len() == 0
    &&& item.vis.kind == VisibilityKind::Public
    &&& forall|i: int| 0 <= i < item.fields@.len() ==> field_ok(#[trigger] item.fields@[i])
}

/// The diagnostic a failed event build reports: the first violation in
/// checking order — struct-level grammar, then generics, then visibility,
/// then the fields in declaration order.
pub open spec fn event_err_spec(d: Diagnostic, item: ItemStruct) -> bool {
    if !sanitize_ok(item.attrs@, KindTag::Event, &EventLevelRule) {
        sanitize_err_spec(d, item.span, item.attrs@, KindTag::Event, &EventLevelRule)
    } else if item.generics@.len() > 0 {
        &&& d.kind == DiagnosticKind::UnsupportedGenerics
        &&& d.span == item.generics@[0].span
        &&& d.notes@ == Seq::<Span>::empty()
    } else if item.vis.kind != VisibilityKind::Public {
        &&& d.kind == DiagnosticKind::NonPublicVisibility
        &&& d.span == item.vis.span
        &&& d.notes@ == Seq::<Span>::empty()
    } else {
        exists|k: int|
            {
                &&& 0 <= k < item.fields@.len()
                &&& !field_ok(#[trigger] item.fields@[k])
                &&& (forall|j: int| 0 <= j < k ==> field_ok(#[trigger] item.fields@[j]))
                &&& field_err_spec(d, item.fields@[k])
            }
    }
}

/// One sanitized field of an event: the retained parts of the field
/// declaration plus the precomputed topic flag.
#[derive(Debug)]
pub struct EventFieldData {
    /// Whether the field's leading DSL annotation was the topic marker.
    pub is_topic: bool,
    pub span: Span,
    pub vis: Visibility,
    /// The field's name; a tuple-struct field has none.
    pub ident: Option<String>,
    /// The field's type, as the text the front-end read.
    pub ty: String,
    /// The field's non-DSL annotations, in source order.
    pub other_attrs: Vec<OtherAttribute>,
}

/// Whether a sanitized field faithfully reports the declared field: same
/// position, visibility, name and type, the non-DSL annotations retained in
/// order, and the topic flag derived from the leading DSL annotation.
pub open spec fn event_field_matches(data: EventFieldData, f: Field) -> bool {
    &&& data.is_topic == field_is_topic(f)
    &&& data.span == f.span
    &&& data.vis == f.vis
    &&& data.ident == f.ident
    &&& data.ty == f.ty
    &&& data.other_attrs@ == others_of(f.attrs@)
}

/// Validates one field of an event struct and builds its sanitized form.
#[verifier::loop_isolation(false)]
fn sanitize_event_field(f: Field) -> (r: Result<EventFieldData, Diagnostic>)
    ensures
        (r is Ok) == field_ok(f),
        match r {
            Ok(data) => event_field_matches(data, f),
            Err(d) => field_err_spec(d, f),
        },
{
    let Field { span: fspan, attrs: fattrs, vis: fvis, ident: fident, ty: fty } = f;
    let (finks, fothers) = match partition_attributes(fattrs) {
        Ok(p) => p,
        Err(d) => {
            return Err(d);
        },
    };
    proof {
        crate::attrs::lemma_flatten_groups_of_ink_groups(f.attrs@);
        crate::attrs::lemma_flat_args_len(f.attrs@);
    }
    if finks.len() == 0 {
        // no DSL annotations at all: implicitly a non-topic field
        return Ok(
            EventFieldData {
                is_topic: false,
                span: fspan,
                vis: fvis,
                ident: fident,
                ty: fty,
                other_attrs: fothers,
            },
        );
    }
    let normalized = match InkAttribute::from_expanded(fspan, finks) {
        Ok(ia) => ia,
        Err(d0) => {
            // the expansion is non-empty here, so only a duplicate is possible
            let d = d0.into_combine(fspan);
            proof {
                assert(d.notes@ =~= seq![f.span]);
            }
            return Err(d);
        },
    };
    let first = *normalized.first();
    if first.kind.tag() != KindTag::Topic {
        return Err(Diagnostic::new(DiagnosticKind::InvalidFieldAttributeOrder, fspan));
    }
    let args = normalized.args();
    let n = args.len();
    for i in 0..n
        invariant
            forall|j: int| 0 <= j < i ==> (#[trigger] args@[j]).kind.spec_tag() == KindTag::Topic,
    {
        if args[i].kind.tag() != KindTag::Topic {
            assert(first_nontopic_at(field_dsl_args(f), i as int));
            return Err(Diagnostic::new(DiagnosticKind::ConflictingFieldAttribute, args[i].span));
        }
    }
    Ok(
        EventFieldData {
            is_topic: true,
            span: fspan,
            vis: fvis,
            ident: fident,
            ty: fty,
            other_attrs: fothers,
        },
    )
}

/// A validated event struct: the immutable IR node for one event
/// declaration, retaining the identifier, the non-DSL annotations, and the
/// sanitized fields with their topic flags.
#[derive(Debug)]
pub struct Event {
    span: Span,
    ident: String,
    other_attrs: Vec<OtherAttribute>,
    fields: Vec<EventFieldData>,
}

impl Event {
    /// The position of the event struct declaration.
    pub closed spec fn spec_span(&self) -> Span {
        self.span
    }

    /// The identifier of the event struct.
    pub closed spec fn spec_ident(&self) -> Seq<char> {
        self.ident@
    }

    /// The non-DSL annotations retained on the struct.
    pub closed spec fn spec_other_attrs(&self) -> Seq<OtherAttribute> {
        self.other_attrs@
    }

    /// The sanitized fields, in declaration order.
    pub closed spec fn spec_fields(&self) -> Seq<EventFieldData> {
        self.fields@
    }

    /// Whether the first DSL annotation on the given struct is the event
    /// marker. Returns `false` for a struct carrying no DSL annotations at
    /// all; fails when the first DSL-shaped annotation is malformed. This
    /// only disambiguates which builder a dispatcher should invoke — it does
    /// not validate the full grammar.
    pub fn is_ink_event(item_struct: &ItemStruct) -> (r: Result<bool, Diagnostic>)
        ensures
            match r {
                Ok(b) => {
                    &&& (forall|i: int|
                        0 <= i < item_struct.attrs@.len() ==> !raw_is_ink(
                            #[trigger] item_struct.attrs@[i],
                        )) ==> !b
                    &&& forall|i: int|
                        #[trigger] first_ink_at(item_struct.attrs@, i) && !raw_is_malformed(
                            item_struct.attrs@[i],
                        ) ==> b == (raw_args(item_struct.attrs@[i])[0].kind.spec_tag()
                            == KindTag::Event)
                },
                Err(d) => {
                    &&& d.kind == DiagnosticKind::MalformedAttribute
                    &&& exists|i: int|
                        first_ink_at(item_struct.attrs@, i) && raw_is_malformed(
                            item_struct.attrs@[i],
                        ) && d.span == raw_span(item_struct.attrs@[i])
                    &&& d.notes@ == Seq::<Span>::empty()
                },
            },
    {
        if !contains_ink_attributes(&item_struct.attrs) {
            return Ok(false);
        }
        match first_ink_attribute(&item_struct.attrs) {
            Err(d) => Err(d),
            Ok(opt) => match opt {
                None => {
                    // unreachable: the list was just seen to contain one
                    proof {
                        let i = choose|i: int|
                            0 <= i < item_struct.attrs@.len() && raw_is_ink(
                                item_struct.attrs@[i],
                            );
                        assert(!raw_is_ink(item_struct.attrs@[i]));
                    }
                    Ok(false)
                },
                Some(ia) => {
                    let first = *ia.first();
                    let ghost i = choose|i: int|
                        first_ink_at(item_struct.attrs@, i) && !raw_is_malformed(
                            item_struct.attrs@[i],
                        ) && ia@ == raw_args(item_struct.attrs@[i]);
                    proof {
                        assert forall|i2: int|
                            #[trigger] first_ink_at(item_struct.attrs@, i2) && !raw_is_malformed(
                                item_struct.attrs@[i2],
                            ) implies i2 == i by {
                            assert(raw_is_ink(item_struct.attrs@[i]));
                            assert(raw_is_ink(item_struct.attrs@[i2]));
                        }
                    }
                    Ok(first.kind.tag() == KindTag::Event)
                },
            },
        }
    }

    /// Builds the event IR node from a struct-like declaration.
    ///
    /// Succeeds exactly when the declaration passes the whole event grammar:
    /// its DSL annotations are exactly one event marker, it declares no
    /// generic parameters, it is public, and each field's DSL annotations
    /// (if any) are the topic marker and nothing else. On success the node
    /// reports one sanitized field per declared field, in declaration order,
    /// topic-flagged exactly where the field's leading DSL annotation was
    /// the topic marker; on failure it reports the first violation found.
    #[verifier::loop_isolation(false)]
    pub fn try_from(item: ItemStruct) -> (r: Result<Event, Diagnostic>)
        ensures
            (r is Ok) == event_ok(item),
            match r {
                Ok(ev) => {
                    &&& ev.spec_span() == item.span
                    &&& ev.spec_ident() == item.ident@
                    &&& ev.spec_other_attrs() == others_of(item.attrs@)
                    &&& ev.spec_fields().len() == item.fields@.len()
                    &&& forall|i: int|
                        0 <= i < item.fields@.len() ==> event_field_matches(
                            #[trigger] ev.spec_fields()[i],
                            item.fields@[i],
                        )
                },
                Err(d) => event_err_spec(d, item),
            },
    {
        let ItemStruct { span, attrs, vis, ident, generics, fields } = item;
        let other_attrs = match sanitize_attributes(span, attrs, KindTag::Event, &EventLevelRule) {
            Ok(p) => p.1,
            Err(d) => {
                return Err(d);
            },
        };
        if generics.len() > 0 {
            return Err(Diagnostic::new(DiagnosticKind::UnsupportedGenerics, generics[0].span));
        }
        match vis.kind {
            VisibilityKind::Public => {},
            _ => {
                return Err(Diagnostic::new(DiagnosticKind::NonPublicVisibility, vis.span));
            },
        }
        let ghost all_fields = item.fields@;
        let mut rest = fields;
        let mut out_fields: Vec<EventFieldData> = Vec::new();
        while rest.len() > 0
            invariant
                out_fields@.len() + rest@.len() == all_fields.len(),
                rest@ == all_fields.skip(out_fields@.len() as int),
                forall|i: int| 0 <= i < out_fields@.len() ==> field_ok(#[trigger] all_fields[i]),
                forall|i: int|
                    0 <= i < out_fields@.len() ==> event_field_matches(
                        #[trigger] out_fields@[i],
                        all_fields[i],
                    ),
            decreases rest@.len(),
        {
            let ghost k = out_fields@.len() as int;
            proof {
                assert(rest@[0] == all_fields[k]);
            }
            let f = rest.remove(0);
            proof {
                assert(rest@ =~= all_fields.skip(k + 1));
            }
            match sanitize_event_field(f) {
                Ok(data) => {
                    out_fields.push(data);
                },
                Err(d) => {
                    return Err(d);
                },
            }
        }
        proof {
            assert(out_fields@.len() == all_fields.len());
        }
        Ok(Event { span, ident, other_attrs, fields: out_fields })
    }

    /// The identifier of the event struct.
    pub fn ident(&self) -> (r: &String)
        ensures
            r@ == self.spec_ident(),
    {
        &self.ident
    }

    /// The position of the event struct declaration.
    pub fn span(&self) -> (r: Span)
        ensures
            r == self.spec_span(),
    {
        self.span
    }

    /// The non-DSL annotations retained on the struct, in source order.
    pub fn attrs(&self) -> (r: &Vec<OtherAttribute>)
        ensures
            r@ == self.spec_other_attrs(),
    {
        &self.other_attrs
    }

    /// An iterator over the event's fields, each tagged with whether it is
    /// a topic field. A fresh iterator always restarts from the first field.
    pub fn fields(&self) -> (r: EventFieldsIter)
        ensures
            r.spec_event() == *self,
            r.spec_index() == 0,
    {
        EventFieldsIter::new(self)
    }
}

/// An event field with a flag indicating whether this field is a topic.
/// A borrowed view: it is valid only for the lifetime of its parent
/// [`Event`].
#[derive(Clone, Copy)]
pub struct EventField<'a> {
    /// The wrapped field is an event topic if this is `true`.
    pub is_topic: bool,
    field: &'a EventFieldData,
}

impl<'a> EventField<'a> {
    /// The sanitized field this view wraps.
    pub closed spec fn spec_data(&self) -> EventFieldData {
        *self.field
    }

    /// The topic flag this view carries.
    pub closed spec fn spec_is_topic(&self) -> bool {
        self.is_topic
    }

    /// The position of the field.
    pub fn span(self) -> (r: Span)
        ensures
            r == self.spec_data().span,
    {
        self.field.span
    }

    /// The non-DSL annotations retained on the field.
    pub fn attrs(self) -> (r: &'a Vec<OtherAttribute>)
        ensures
            r@ == self.spec_data().other_attrs@,
    {
        &self.field.other_attrs
    }

    /// The visibility of the field.
    pub fn vis(self) -> (r: &'a Visibility)
        ensures
            *r == self.spec_data().vis,
    {
        &self.field.vis
    }

    /// The identifier of the field, if it has one.
    pub fn ident(self) -> (r: Option<&'a String>)
        ensures
            (r is Some) == (self.spec_data().ident is Some),
            r matches Some(s) ==> self.spec_data().ident matches Some(s2) && s2 == *s,
    {
        self.field.ident.as_ref()
    }

    /// The type of the field, as the text the front-end read.
    pub fn ty(self) -> (r: &'a String)
        ensures
            r@ == self.spec_data().ty@,
    {
        &self.field.ty
    }
}

/// A lazy iterator yielding every field of an event struct in declaration
/// order, each as an [`EventField`]. It re-validates nothing: the flags were
/// computed when the event was built.
pub struct EventFieldsIter<'a> {
    event: &'a Event,
    index: usize,
}

impl<'a> EventFieldsIter<'a> {
    /// The event being traversed.
    pub closed spec fn spec_event(&self) -> Event {
        *self.event
    }

    /// How many fields have been yielded so far.
    pub closed spec fn spec_index(&self) -> int {
        self.index as int
    }

    /// The fields this iterator has yet to yield, in order.
    pub open spec fn spec_remaining(&self) -> Seq<EventFieldData> {
        self.spec_event().spec_fields().skip(self.spec_index())
    }

    /// Creates a fresh fields iterator over the given event, positioned at
    /// the first field.
    fn new(event: &'a Event) -> (r: Self)
        ensures
            r.spec_event() == *event,
            r.spec_index() == 0,
    {
        EventFieldsIter { event, index: 0 }
    }

    /// Yields the next field, tagged with its topic flag, or `None` once
    /// every field has been yielded. The result and the successor state are
    /// functions of the event and the position alone.
    pub fn next(&mut self) -> (r: Option<EventField<'a>>)
        ensures
            final(self).spec_event() == old(self).spec_event(),
            old(self).spec_index() < old(self).spec_event().spec_fields().len() ==> ({
                &&& final(self).spec_index() == old(self).spec_index() + 1
                &&& r matches Some(ef) && ef.spec_is_topic() == old(
                    self,
                ).spec_event().spec_fields()[old(self).spec_index()].is_topic && ef.spec_data()
                    == old(self).spec_event().spec_fields()[old(self).spec_index()]
            }),
            old(self).spec_index() >= old(self).spec_event().spec_fields().len() ==> r is None
                && final(self).spec_index() == old(self).spec_index(),
    {
        if self.index < self.event.fields.len() {
            let field = &self.event.fields[self.index];
            let ef = EventField { is_topic: field.is_topic, field };
            self.index = self.index + 1;
            Some(ef)
        } else {
            None
        }
    }
}

/// A fresh traversal yields exactly the event's sanitized fields, one per
/// declared field, in declaration order.
pub proof fn lemma_fresh_traversal_yields_fields(it: EventFieldsIter)
    requires
        it.spec_index() == 0,
    ensures
        it.spec_remaining() == it.spec_event().spec_fields(),
{
    assert(it.spec_event().spec_fields().skip(0) =~= it.spec_event().spec_fields());
}

/// Re-deriving the topic flags is idempotent: what a fields traversal has
/// yet to yield is a function of the event and the position alone, so a
/// second traversal of the same event yields the identical sequence of
/// field reports.
pub proof fn lemma_fields_traversal_idempotent(a: EventFieldsIter, b: EventFieldsIter)
    requires
        a.spec_event() == b.spec_event(),
        a.spec_index() == b.spec_index(),
    ensures
        a.spec_remaining() == b.spec_remaining(),
{
}

} // verus!
