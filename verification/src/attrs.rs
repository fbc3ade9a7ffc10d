//! The annotation classification and sanitization engine.
//!
//! A declaration arrives with an ordered list of raw annotations, each
//! already tokenized by the front-end into a kind candidate and a source
//! position. This module splits that list into recognized DSL annotations
//! and everything else ([`partition_attributes`]), normalizes the DSL subset
//! into one non-empty ordered group ([`InkAttribute::from_expanded`]), and
//! enforces the ordering, uniqueness and co-occurrence grammar
//! ([`sanitize_attributes`]), parameterized by the caller's expected primary
//! kind and conflict rule so that every IR builder reuses the same machinery.

use crate::diagnostic::Diagnostic;
use crate::diagnostic::DiagnosticKind;
use vstd::prelude::*;

verus! {

/// A position in the source text, as byte offsets of the start and end of
/// the annotated token.
#[derive(Clone, Copy, PartialEq, Eq, Structural, Debug)]
pub struct Span {
    pub lo: u32,
    pub hi: u32,
}

/// The variant tag of an [`AttributeArgKind`], without any carried value.
///
/// Duplicate and conflict checks compare annotation kinds by this tag alone:
/// two selector annotations with different selector values are still "the
/// same kind".
#[derive(Clone, Copy, PartialEq, Eq, Structural, Debug)]
pub enum KindTag {
    Storage,
    Event,
    Topic,
    Message,
    Payable,
    Selector,
    Salt,
    Other,
}

/// A recognized DSL annotation kind.
///
/// The vocabulary is open: kinds the DSL will only gain later arrive as
/// [`AttributeArgKind::Other`] with an identifier chosen by the front-end,
/// so front-end and back-end can evolve independently.
#[derive(Clone, Copy, PartialEq, Eq, Structural, Debug)]
pub enum AttributeArgKind {
    /// Marks a struct as the contract's storage.
    Storage,
    /// Marks a struct as a contract event.
    Event,
    /// Marks an event field as indexed.
    Topic,
    /// Marks a method as a contract message.
    Message,
    /// Marks a message as able to receive funds.
    Payable,
    /// A user-provided message selector.
    Selector(u32),
    /// A user-provided salt value.
    Salt(u64),
    /// A recognized-as-DSL annotation of a kind this vocabulary does not
    /// know yet; the carried identifier is the front-end's choice.
    Other(u32),
}

impl AttributeArgKind {
    /// The variant tag of this kind, ignoring any carried value.
    pub open spec fn spec_tag(self) -> KindTag {
        match self {
            AttributeArgKind::Storage => KindTag::Storage,
            AttributeArgKind::Event => KindTag::Event,
            AttributeArgKind::Topic => KindTag::Topic,
            AttributeArgKind::Message => KindTag::Message,
            AttributeArgKind::Payable => KindTag::Payable,
            AttributeArgKind::Selector(_) => KindTag::Selector,
            AttributeArgKind::Salt(_) => KindTag::Salt,
            AttributeArgKind::Other(_) => KindTag::Other,
        }
    }

    /// Returns the variant tag of this kind, ignoring any carried value.
    #[verifier::when_used_as_spec(spec_tag)]
    pub fn tag(self) -> (t: KindTag)
        ensures
            t == self.spec_tag(),
    {
        match self {
            AttributeArgKind::Storage => KindTag::Storage,
            AttributeArgKind::Event => KindTag::Event,
            AttributeArgKind::Topic => KindTag::Topic,
            AttributeArgKind::Message => KindTag::Message,
            AttributeArgKind::Payable => KindTag::Payable,
            AttributeArgKind::Selector(_) => KindTag::Selector,
            AttributeArgKind::Salt(_) => KindTag::Salt,
            AttributeArgKind::Other(_) => KindTag::Other,
        }
    }
}

/// One recognized DSL annotation instance: its kind and the source position
/// of the token that produced it. Order among the annotations of one
/// declaration is significant and is preserved as written.
#[derive(Clone, Copy, PartialEq, Eq, Structural, Debug)]
pub struct Attribute {
    pub kind: AttributeArgKind,
    pub span: Span,
}

/// An annotation the DSL does not own. It passes through the sanitizer
/// untouched and is retained on the IR node; its content is opaque here.
#[derive(Debug)]
pub struct OtherAttribute {
    pub span: Span,
    /// The annotation's path text, kept only so the back-end can re-emit it.
    pub path: String,
}

impl OtherAttribute {
    /// An owned copy of this annotation.
    pub fn duplicate(&self) -> (r: OtherAttribute)
        ensures
            r == *self,
    {
        OtherAttribute { span: self.span, path: self.path.clone() }
    }
}

/// One raw annotation on a declaration, as handed over by the front-end.
#[derive(Debug)]
pub enum RawAttribute {
    /// An annotation in the DSL's syntax, with the kinds its arguments were
    /// tokenized into. A DSL-shaped annotation whose arguments could not be
    /// tokenized arrives with an empty argument list and is reported as
    /// malformed by the partitioner.
    Ink { span: Span, args: Vec<Attribute> },
    /// An annotation the DSL does not own.
    Other(OtherAttribute),
}

/// Whether a raw annotation is in the DSL's syntax (well-formed or not).
pub open spec fn raw_is_ink(a: RawAttribute) -> bool {
    a is Ink
}

/// Whether a raw annotation looks like the DSL's but could not be parsed
/// into at least one recognized kind.
pub open spec fn raw_is_malformed(a: RawAttribute) -> bool {
    a matches RawAttribute::Ink { args, .. } && args@.len() == 0
}

/// The DSL annotation instances a raw annotation contributes.
pub open spec fn raw_args(a: RawAttribute) -> Seq<Attribute> {
    match a {
        RawAttribute::Ink { args, .. } => args@,
        RawAttribute::Other(_) => Seq::empty(),
    }
}

/// The source position of a raw annotation.
pub open spec fn raw_span(a: RawAttribute) -> Span {
    match a {
        RawAttribute::Ink { span, .. } => span,
        RawAttribute::Other(o) => o.span,
    }
}

/// Whether some raw annotation in `s` is DSL-shaped but malformed.
pub open spec fn has_malformed(s: Seq<RawAttribute>) -> bool {
    exists|i: int| 0 <= i < s.len() && raw_is_malformed(s[i])
}

/// Position `i` holds the first malformed raw annotation of `s`.
pub open spec fn first_malformed_at(s: Seq<RawAttribute>, i: int) -> bool {
    &&& 0 <= i < s.len()
    &&& raw_is_malformed(s[i])
    &&& forall|j: int| 0 <= j < i ==> !raw_is_malformed(#[trigger] s[j])
}

/// All DSL annotation instances of `s`, flattened in source order.
pub open spec fn flat_args(s: Seq<RawAttribute>) -> Seq<Attribute>
    decreases s.len(),
{
    if s.len() == 0 {
        Seq::empty()
    } else {
        flat_args(s.drop_last()) + raw_args(s.last())
    }
}

/// The argument lists of the DSL-shaped annotations of `s`, one entry per
/// annotation, in source order.
pub open spec fn ink_groups(s: Seq<RawAttribute>) -> Seq<Seq<Attribute>>
    decreases s.len(),
{
    if s.len() == 0 {
        Seq::empty()
    } else if s.last() is Ink {
        ink_groups(s.drop_last()).push(raw_args(s.last()))
    } else {
        ink_groups(s.drop_last())
    }
}

/// The non-DSL annotations of `s`, in source order.
pub open spec fn others_of(s: Seq<RawAttribute>) -> Seq<OtherAttribute>
    decreases s.len(),
{
    if s.len() == 0 {
        Seq::empty()
    } else {
        match s.last() {
            RawAttribute::Other(o) => others_of(s.drop_last()).push(o),
            _ => others_of(s.drop_last()),
        }
    }
}

/// The concatenation of a sequence of argument lists, in order.
pub open spec fn flatten_groups(gs: Seq<Seq<Attribute>>) -> Seq<Attribute>
    decreases gs.len(),
{
    if gs.len() == 0 {
        Seq::empty()
    } else {
        flatten_groups(gs.drop_last()) + gs.last()
    }
}

/// Some earlier annotation of `args` has the same kind tag as `args[j]`.
pub open spec fn dup_before(args: Seq<Attribute>, j: int) -> bool {
    exists|i: int| 0 <= i < j && (#[trigger] args[i].kind).spec_tag() == args[j].kind.spec_tag()
}

/// Some kind tag appears more than once in `args`.
pub open spec fn has_duplicate(args: Seq<Attribute>) -> bool {
    exists|j: int| 0 <= j < args.len() && dup_before(args, j)
}

/// Position `j` holds the first annotation of `args` that repeats an
/// earlier one's kind tag.
pub open spec fn first_duplicate_at(args: Seq<Attribute>, j: int) -> bool {
    &&& 0 <= j < args.len()
    &&& dup_before(args, j)
    &&& forall|j2: int| 0 <= j2 < j ==> !dup_before(args, j2)
}

/// Flattening the DSL groups of `s` gives exactly the flattened DSL
/// annotation instances of `s`.
pub proof fn lemma_flatten_groups_of_ink_groups(s: Seq<RawAttribute>)
    ensures
        flatten_groups(ink_groups(s)) == flat_args(s),
    decreases s.len(),
{
    if s.len() == 0 {
    } else {
        lemma_flatten_groups_of_ink_groups(s.drop_last());
        if s.last() is Ink {
            assert(ink_groups(s.drop_last()).push(raw_args(s.last())).drop_last() =~= ink_groups(
                s.drop_last(),
            ));
        } else {
            assert(raw_args(s.last()) =~= Seq::<Attribute>::empty());
            assert(flat_args(s.drop_last()) + raw_args(s.last()) =~= flat_args(s.drop_last()));
        }
    }
}

/// A normalized annotation group: the non-empty ordered sequence of all DSL
/// annotation instances found on one declaration, flattened in source order.
/// Its first element is the primary kind and constrains what is
/// grammatically legal for the rest.
#[derive(Debug)]
pub struct InkAttribute {
    args: Vec<Attribute>,
}

impl View for InkAttribute {
    type V = Seq<Attribute>;

    closed spec fn view(&self) -> Seq<Attribute> {
        self.args@
    }
}

impl InkAttribute {
    #[verifier::type_invariant]
    spec fn wf(self) -> bool {
        self.args@.len() >= 1
    }

    /// The first annotation of the group: the primary one.
    pub fn first(&self) -> (r: &Attribute)
        ensures
            self@.len() >= 1,
            *r == self@[0],
    {
        proof {
            use_type_invariant(&*self);
        }
        &self.args[0]
    }

    /// All annotations of the group, in source order.
    pub fn args(&self) -> (r: &Vec<Attribute>)
        ensures
            r@ == self@,
            self@.len() >= 1,
    {
        proof {
            use_type_invariant(&*self);
        }
        &self.args
    }
}

/// An owned copy of an annotation list.
fn copy_args(args: &Vec<Attribute>) -> (r: Vec<Attribute>)
    ensures
        r@ == args@,
{
    let mut out: Vec<Attribute> = Vec::new();
    let n = args.len();
    for i in 0..n
        invariant
            n == args@.len(),
            out@ == args@.take(i as int),
    {
        out.push(args[i]);
        proof {
            assert(out@ =~= args@.take(i as int + 1));
        }
    }
    proof {
        assert(args@.take(n as int) =~= args@);
    }
    out
}

/// Without DSL-shaped annotations there are no DSL annotation instances;
/// with at least one DSL-shaped annotation and none malformed there is at
/// least one instance.
pub proof fn lemma_flat_args_len(s: Seq<RawAttribute>)
    ensures
        ink_groups(s).len() == 0 ==> flat_args(s).len() == 0,
        ink_groups(s).len() > 0 && !has_malformed(s) ==> flat_args(s).len() > 0,
    decreases s.len(),
{
    if s.len() == 0 {
    } else {
        lemma_flat_args_len(s.drop_last());
        assert(forall|j: int|
            0 <= j < s.len() - 1 ==> #[trigger] s.drop_last()[j] == s[j]);
        if s.last() is Ink {
            if !has_malformed(s) {
                assert(!raw_is_malformed(s[s.len() - 1]));
                assert(raw_args(s.last()).len() > 0);
            }
        } else {
            assert(!has_malformed(s.drop_last()) <== !has_malformed(s)) by {
                if has_malformed(s.drop_last()) {
                    let i = choose|i: int|
                        0 <= i < s.drop_last().len() && raw_is_malformed(s.drop_last()[i]);
                    assert(raw_is_malformed(s[i]));
                }
            }
        }
    }
}

/// Splits a declaration's raw annotation list into the recognized DSL
/// annotation groups and everything else, preserving the relative order
/// within each output group. Fails on the first DSL-shaped annotation that
/// could not be parsed into a kind.
pub fn partition_attributes(attrs: Vec<RawAttribute>) -> (r: Result<
    (Vec<InkAttribute>, Vec<OtherAttribute>),
    Diagnostic,
>)
    ensures
        (r is Ok) == !has_malformed(attrs@),
        match r {
            Ok(p) => {
                &&& p.0@.map_values(|ia: InkAttribute| ia@) == ink_groups(attrs@)
                &&& p.1@ == others_of(attrs@)
            },
            Err(d) => {
                &&& d.kind == DiagnosticKind::MalformedAttribute
                &&& exists|i: int| first_malformed_at(attrs@, i) && d.span == raw_span(attrs@[i])
                &&& d.notes@ == Seq::<Span>::empty()
            },
        },
{
    let mut inks: Vec<InkAttribute> = Vec::new();
    let mut others: Vec<OtherAttribute> = Vec::new();
    let n = attrs.len();
    for idx in 0..n
        invariant
            n == attrs@.len(),
            forall|j: int| 0 <= j < idx ==> !raw_is_malformed(#[trigger] attrs@[j]),
            inks@.map_values(|ia: InkAttribute| ia@) == ink_groups(attrs@.take(idx as int)),
            others@ == others_of(attrs@.take(idx as int)),
    {
        proof {
            assert(attrs@.take(idx as int + 1).drop_last() =~= attrs@.take(idx as int));
            assert(attrs@.take(idx as int + 1).last() == attrs@[idx as int]);
        }
        match &attrs[idx] {
            RawAttribute::Ink { span, args } => {
                if args.len() == 0 {
                    assert(first_malformed_at(attrs@, idx as int));
                    return Err(Diagnostic::new(DiagnosticKind::MalformedAttribute, *span));
                }
                let ghost old_groups = inks@.map_values(|ia: InkAttribute| ia@);
                inks.push(InkAttribute { args: copy_args(args) });
                proof {
                    assert(inks@.map_values(|ia: InkAttribute| ia@) =~= old_groups.push(
                        raw_args(attrs@[idx as int]),
                    ));
                }
            },
            RawAttribute::Other(o) => {
                others.push(o.duplicate());
            },
        }
    }
    proof {
        assert(attrs@.take(n as int) =~= attrs@);
    }
    Ok((inks, others))
}

impl InkAttribute {
    /// Normalizes a list of DSL annotation groups into one [`InkAttribute`]
    /// by flattening in source order. Fails when there is nothing to
    /// flatten, or when any kind (by variant tag) appears more than once
    /// across the whole set: duplicates are never silently merged. `scope`
    /// positions the diagnostic for an empty expansion.
    pub fn from_expanded(scope: Span, groups: Vec<InkAttribute>) -> (r: Result<
        InkAttribute,
        Diagnostic,
    >)
        ensures
            ({
                let flat = flatten_groups(groups@.map_values(|g: InkAttribute| g@));
                &&& (r is Ok) == (flat.len() > 0 && !has_duplicate(flat))
                &&& match r {
                    Ok(ia) => ia@ == flat,
                    Err(d) => {
                        &&& d.notes@ == Seq::<Span>::empty()
                        &&& if flat.len() == 0 {
                            &&& d.kind == DiagnosticKind::MissingExpectedAttribute
                            &&& d.span == scope
                        } else {
                            &&& has_duplicate(flat)
                            &&& d.kind == DiagnosticKind::DuplicateAttribute
                            &&& exists|j: int| first_duplicate_at(flat, j) && d.span == flat[j].span
                        }
                    },
                }
            }),
    {
        let ghost gs = groups@.map_values(|g: InkAttribute| g@);
        let mut args: Vec<Attribute> = Vec::new();
        let gn = groups.len();
        for gi in 0..gn
            invariant
                gn == groups@.len(),
                gs == groups@.map_values(|g: InkAttribute| g@),
                args@ == flatten_groups(gs.take(gi as int)),
        {
            proof {
                assert(gs.take(gi as int + 1).drop_last() =~= gs.take(gi as int));
                assert(gs.take(gi as int + 1).last() == groups@[gi as int]@);
            }
            let g = &groups[gi];
            let an = g.args.len();
            for ai in 0..an
                invariant
                    an == g.args@.len(),
                    g == groups@[gi as int],
                    gs == groups@.map_values(|g2: InkAttribute| g2@),
                    args@ == flatten_groups(gs.take(gi as int)) + g.args@.take(ai as int),
            {
                args.push(g.args[ai]);
                proof {
                    assert(g.args@.take(ai as int + 1) =~= g.args@.take(ai as int).push(
                        g.args@[ai as int],
                    ));
                }
            }
            proof {
                assert(g.args@.take(an as int) =~= g.args@);
                assert(g.args@ == groups@[gi as int]@);
            }
        }
        proof {
            assert(gs.take(gn as int) =~= gs);
        }
        if args.len() == 0 {
            return Err(Diagnostic::new(DiagnosticKind::MissingExpectedAttribute, scope));
        }
        let n = args.len();
        for j in 1..n
            invariant
                n == args@.len(),
                n >= 1,
                gs == groups@.map_values(|g: InkAttribute| g@),
                args@ == flatten_groups(gs),
                forall|j2: int| 0 <= j2 < j ==> !dup_before(args@, j2),
        {
            for i in 0..j
                invariant
                    n == args@.len(),
                    n >= 1,
                    1 <= j < n,
                    gs == groups@.map_values(|g: InkAttribute| g@),
                    args@ == flatten_groups(gs),
                    forall|j2: int| 0 <= j2 < j ==> !dup_before(args@, j2),
                    forall|i2: int|
                        0 <= i2 < i ==> (#[trigger] args@[i2].kind).spec_tag()
                            != args@[j as int].kind.spec_tag(),
            {
                if args[i].kind.tag() == args[j].kind.tag() {
                    assert(dup_before(args@, j as int));
                    assert(first_duplicate_at(args@, j as int));
                    assert(has_duplicate(args@));
                    return Err(Diagnostic::new(DiagnosticKind::DuplicateAttribute, args[j].span));
                }
            }
            assert(!dup_before(args@, j as int));
        }
        assert(!has_duplicate(args@)) by {
            assert(forall|j2: int| 0 <= j2 < args@.len() ==> !dup_before(args@, j2));
        }
        Ok(InkAttribute { args })
    }
}

/// Position `i` holds the first DSL-shaped raw annotation of `s`.
pub open spec fn first_ink_at(s: Seq<RawAttribute>, i: int) -> bool {
    &&& 0 <= i < s.len()
    &&& raw_is_ink(s[i])
    &&& forall|j: int| 0 <= j < i ==> !raw_is_ink(#[trigger] s[j])
}

/// Whether any annotation of the list is in the DSL's syntax, well-formed
/// or not.
pub fn contains_ink_attributes(attrs: &Vec<RawAttribute>) -> (r: bool)
    ensures
        r == exists|i: int| 0 <= i < attrs@.len() && raw_is_ink(#[trigger] attrs@[i]),
{
    let n = attrs.len();
    for idx in 0..n
        invariant
            n == attrs@.len(),
            forall|j: int| 0 <= j < idx ==> !raw_is_ink(#[trigger] attrs@[j]),
    {
        match &attrs[idx] {
            RawAttribute::Ink { .. } => {
                return true;
            },
            RawAttribute::Other(_) => {},
        }
    }
    false
}

/// The first DSL annotation group of the list, if the list has one; fails
/// when that first DSL-shaped annotation is malformed. Later annotations are
/// not inspected.
pub fn first_ink_attribute(attrs: &Vec<RawAttribute>) -> (r: Result<Option<InkAttribute>, Diagnostic>)
    ensures
        match r {
            Ok(opt) => match opt {
                Some(ia) => exists|i: int|
                    first_ink_at(attrs@, i) && !raw_is_malformed(attrs@[i]) && ia@ == raw_args(
                        attrs@[i],
                    ),
                None => forall|i: int| 0 <= i < attrs@.len() ==> !raw_is_ink(#[trigger] attrs@[i]),
            },
            Err(d) => {
                &&& d.kind == DiagnosticKind::MalformedAttribute
                &&& exists|i: int|
                    first_ink_at(attrs@, i) && raw_is_malformed(attrs@[i]) && d.span == raw_span(
                        attrs@[i],
                    )
                &&& d.notes@ == Seq::<Span>::empty()
            },
        },
{
    let n = attrs.len();
    for idx in 0..n
        invariant
            n == attrs@.len(),
            forall|j: int| 0 <= j < idx ==> !raw_is_ink(#[trigger] attrs@[j]),
    {
        match &attrs[idx] {
            RawAttribute::Ink { span, args } => {
                assert(first_ink_at(attrs@, idx as int));
                if args.len() == 0 {
                    return Err(Diagnostic::new(DiagnosticKind::MalformedAttribute, *span));
                }
                return Ok(Some(InkAttribute { args: copy_args(args) }));
            },
            RawAttribute::Other(_) => {},
        }
    }
    Ok(None)
}

/// A caller-supplied conflict rule: which kinds are illegal as non-first
/// annotations in the caller's context. The grammar is data: each IR
/// builder supplies its own rule and reuses the one sanitizer.
pub trait ConflictRule {
    /// The rule as a mathematical predicate on kinds.
    spec fn spec_conflicts(&self, kind: AttributeArgKind) -> bool;

    /// Decides whether `kind` is illegal in this context.
    fn conflicts(&self, kind: &AttributeArgKind) -> (r: bool)
        ensures
            r == self.spec_conflicts(*kind),
    ;
}

/// Position `i` holds the first non-first annotation of `args` whose kind
/// the rule rejects.
pub open spec fn first_conflict_at<R: ConflictRule>(
    args: Seq<Attribute>,
    rule: &R,
    i: int,
) -> bool {
    &&& 1 <= i < args.len()
    &&& rule.spec_conflicts(args[i].kind)
    &&& forall|j: int| 1 <= j < i ==> !rule.spec_conflicts((#[trigger] args[j]).kind)
}

/// The whole ordering, uniqueness and conflict grammar holds of the raw
/// annotation list: no DSL-shaped annotation is malformed, at least one DSL
/// annotation is present, no kind repeats, the first kind is the expected
/// primary one, and no later kind conflicts under the caller's rule.
pub open spec fn sanitize_ok<R: ConflictRule>(
    s: Seq<RawAttribute>,
    expected_first: KindTag,
    rule: &R,
) -> bool {
    let flat = flat_args(s);
    &&& !has_malformed(s)
    &&& flat.len() > 0
    &&& !has_duplicate(flat)
    &&& flat[0].kind.spec_tag() == expected_first
    &&& forall|i: int| 1 <= i < flat.len() ==> !rule.spec_conflicts((#[trigger] flat[i]).kind)
}

/// The diagnostic a failed sanitization reports: the first violation in
/// checking order, at the narrowest position available.
pub open spec fn sanitize_err_spec<R: ConflictRule>(
    d: Diagnostic,
    scope: Span,
    s: Seq<RawAttribute>,
    expected_first: KindTag,
    rule: &R,
) -> bool {
    let flat = flat_args(s);
    &&& d.notes@ == Seq::<Span>::empty()
    &&& if has_malformed(s) {
        &&& d.kind == DiagnosticKind::MalformedAttribute
        &&& exists|i: int| first_malformed_at(s, i) && d.span == raw_span(s[i])
    } else if flat.len() == 0 {
        &&& d.kind == DiagnosticKind::MissingExpectedAttribute
        &&& d.span == scope
    } else if has_duplicate(flat) {
        &&& d.kind == DiagnosticKind::DuplicateAttribute
        &&& exists|j: int| first_duplicate_at(flat, j) && d.span == flat[j].span
    } else if flat[0].kind.spec_tag() != expected_first {
        &&& d.kind == DiagnosticKind::UnexpectedFirstAttribute
        &&& d.span == flat[0].span
    } else {
        &&& d.kind == DiagnosticKind::ConflictingAttribute
        &&& exists|i: int| first_conflict_at(flat, rule, i) && d.span == flat[i].span
    }
}

/// Enforces the annotation grammar on one declaration's raw annotation
/// list: partitions it, normalizes the DSL subset, verifies that the first
/// kind equals `expected_first`, and rejects any later kind the caller's
/// rule reports as conflicting. On success returns the normalized group and
/// the untouched non-DSL annotations; on the first violation returns the
/// corresponding diagnostic. `scope` positions the diagnostic of a
/// declaration that has no DSL annotations at all.
pub fn sanitize_attributes<R: ConflictRule>(
    scope: Span,
    attrs: Vec<RawAttribute>,
    expected_first: KindTag,
    rule: &R,
) -> (r: Result<(InkAttribute, Vec<OtherAttribute>), Diagnostic>)
    ensures
        (r is Ok) == sanitize_ok(attrs@, expected_first, rule),
        match r {
            Ok(p) => p.0@ == flat_args(attrs@) && p.1@ == others_of(attrs@),
            Err(d) => sanitize_err_spec(d, scope, attrs@, expected_first, rule),
        },
{
    let ghost s = attrs@;
    let (inks, others) = match partition_attributes(attrs) {
        Ok(p) => p,
        Err(d) => {
            return Err(d);
        },
    };
    proof {
        lemma_flatten_groups_of_ink_groups(s);
    }
    let normalized = match InkAttribute::from_expanded(scope, inks) {
        Ok(ia) => ia,
        Err(d) => {
            return Err(d);
        },
    };
    let first = *normalized.first();
    if first.kind.tag() != expected_first {
        return Err(Diagnostic::new(DiagnosticKind::UnexpectedFirstAttribute, first.span));
    }
    let args = normalized.args();
    let n = args.len();
    for i in 1..n
        invariant
            s == attrs@,
            n == args@.len(),
            args@ == flat_args(s),
            n >= 1,
            !has_malformed(s),
            !has_duplicate(flat_args(s)),
            flat_args(s)[0].kind.spec_tag() == expected_first,
            forall|j: int| 1 <= j < i ==> !rule.spec_conflicts((#[trigger] args@[j]).kind),
    {
        if rule.conflicts(&args[i].kind) {
            assert(first_conflict_at(flat_args(s), rule, i as int));
            return Err(Diagnostic::new(DiagnosticKind::ConflictingAttribute, args[i].span));
        }
    }
    Ok((normalized, others))
}

} // verus!
