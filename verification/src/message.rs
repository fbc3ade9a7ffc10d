//! The message IR builder.
//!
//! A message is built from a method-like declaration: its DSL annotations
//! must start with the message kind and may co-locate only the payable,
//! salt and selector kinds, which are projected into plain fields of the
//! resulting immutable [`Message`].

use crate::attrs::flat_args;
use crate::attrs::others_of;
use crate::attrs::sanitize_attributes;
use crate::attrs::sanitize_err_spec;
use crate::attrs::sanitize_ok;
use crate::attrs::Attribute;
use crate::attrs::AttributeArgKind;
use crate::attrs::ConflictRule;
use crate::attrs::KindTag;
use crate::attrs::OtherAttribute;
use crate::attrs::Span;
use crate::diagnostic::Diagnostic;
use crate::item::ItemMethod;
use vstd::prelude::*;

verus! {

/// The receiver of a message: how the method takes its self-parameter.
#[derive(Clone, Copy, PartialEq, Eq, Structural, Debug)]
pub enum Receiver {
    /// The `&self` message receiver.
    Ref,
    /// The `&mut self` message receiver.
    RefMut,
}

impl Receiver {
    /// Returns `true` if the receiver is `&self`.
    pub fn is_ref(self) -> (r: bool)
        ensures
            r == (self is Ref),
    {
        match self {
            Receiver::Ref => true,
            _ => false,
        }
    }

    /// Returns `true` if the receiver is `&mut self`.
    pub fn is_ref_mut(self) -> (r: bool)
        ensures
            r == (self is RefMut),
    {
        match self {
            Receiver::RefMut => true,
            _ => false,
        }
    }
}

/// The method-level conflict rule for messages: the payable, salt and
/// selector kinds may accompany the message kind; every other kind
/// conflicts.
pub struct MessageLevelRule;

impl ConflictRule for MessageLevelRule {
    open spec fn spec_conflicts(&self, kind: AttributeArgKind) -> bool {
        match kind.spec_tag() {
            KindTag::Message => false,
            KindTag::Payable => false,
            KindTag::Salt => false,
            KindTag::Selector => false,
            _ => true,
        }
    }

    fn conflicts(&self, kind: &AttributeArgKind) -> (r: bool) {
        match kind.tag() {
            KindTag::Message => false,
            KindTag::Payable => false,
            KindTag::Salt => false,
            KindTag::Selector => false,
            _ => true,
        }
    }
}

/// Whether a method-like declaration passes the whole message grammar.
pub open spec fn message_ok(method: ItemMethod) -> bool {
    sanitize_ok(method.attrs@, KindTag::Message, &MessageLevelRule)
}

/// Whether some annotation of the list carries the payable kind.
pub open spec fn payable_in(args: Seq<Attribute>) -> bool {
    exists|i: int| 0 <= i < args.len() && (#[trigger] args[i]).kind is Payable
}

/// `salt` is exactly the value carried by the salt annotation of the list,
/// or absent when the list has none.
pub open spec fn salt_matches(args: Seq<Attribute>, salt: Option<u64>) -> bool {
    match salt {
        Some(v) => exists|i: int|
            0 <= i < args.len() && (#[trigger] args[i]).kind == AttributeArgKind::Salt(v),
        None => forall|i: int| 0 <= i < args.len() ==> !((#[trigger] args[i]).kind is Salt),
    }
}

/// `selector` is exactly the value carried by the selector annotation of
/// the list, or absent when the list has none.
pub open spec fn selector_matches(args: Seq<Attribute>, selector: Option<u32>) -> bool {
    match selector {
        Some(v) => exists|i: int|
            0 <= i < args.len() && (#[trigger] args[i]).kind == AttributeArgKind::Selector(v),
        None => forall|i: int| 0 <= i < args.len() ==> !((#[trigger] args[i]).kind is Selector),
    }
}

/// A validated message: the immutable IR node for one method-like
/// declaration, retaining the identifier, the receiver classification, the
/// non-DSL annotations, and the projected payable flag, salt and selector.
#[derive(Debug)]
pub struct Message {
    span: Span,
    ident: String,
    self_ref_mut: bool,
    other_attrs: Vec<OtherAttribute>,
    is_payable: bool,
    salt: Option<u64>,
    selector: Option<u32>,
}

impl Message {
    /// The position of the method declaration.
    pub closed spec fn spec_span(&self) -> Span {
        self.span
    }

    /// The identifier of the method.
    pub closed spec fn spec_ident(&self) -> Seq<char> {
        self.ident@
    }

    /// The receiver classification of the method.
    pub closed spec fn spec_receiver(&self) -> Receiver {
        if self.self_ref_mut {
            Receiver::RefMut
        } else {
            Receiver::Ref
        }
    }

    /// The non-DSL annotations retained on the method.
    pub closed spec fn spec_other_attrs(&self) -> Seq<OtherAttribute> {
        self.other_attrs@
    }

    /// Whether the message can receive funds.
    pub closed spec fn spec_is_payable(&self) -> bool {
        self.is_payable
    }

    /// The user-provided salt, if any.
    pub closed spec fn spec_salt(&self) -> Option<u64> {
        self.salt
    }

    /// The user-provided selector, if any.
    pub closed spec fn spec_selector(&self) -> Option<u32> {
        self.selector
    }

    /// Builds the message IR node from a method-like declaration.
    ///
    /// Succeeds exactly when the declaration's DSL annotations start with
    /// the message kind and carry no duplicate and no kind outside the
    /// payable, salt and selector vocabulary. On success the payable flag,
    /// the salt and the selector are projected from whichever of those
    /// secondary kinds are present; on failure the first violation found is
    /// reported.
    #[verifier::loop_isolation(false)]
    pub fn try_from(method: ItemMethod) -> (r: Result<Message, Diagnostic>)
        ensures
            (r is Ok) == message_ok(method),
            match r {
                Ok(m) => {
                    &&& m.spec_span() == method.span
                    &&& m.spec_ident() == method.ident@
                    &&& m.spec_receiver() == (if method.self_ref_mut {
                        Receiver::RefMut
                    } else {
                        Receiver::Ref
                    })
                    &&& m.spec_other_attrs() == others_of(method.attrs@)
                    &&& m.spec_is_payable() == payable_in(flat_args(method.attrs@))
                    &&& salt_matches(flat_args(method.attrs@), m.spec_salt())
                    &&& selector_matches(flat_args(method.attrs@), m.spec_selector())
                },
                Err(d) => sanitize_err_spec(
                    d,
                    method.span,
                    method.attrs@,
                    KindTag::Message,
                    &MessageLevelRule,
                ),
            },
    {
        let ItemMethod { span, attrs, ident, self_ref_mut } = method;
        let (ink_attrs, other_attrs) = match sanitize_attributes(
            span,
            attrs,
            KindTag::Message,
            &MessageLevelRule,
        ) {
            Ok(p) => p,
            Err(d) => {
                return Err(d);
            },
        };
        let args = ink_attrs.args();
        let mut is_payable = false;
        let mut salt: Option<u64> = None;
        let mut selector: Option<u32> = None;
        let n = args.len();
        for i in 0..n
            invariant
                is_payable == exists|j: int| 0 <= j < i && (#[trigger] args@[j]).kind is Payable,
                match salt {
                    Some(v) => exists|j: int|
                        0 <= j < i && (#[trigger] args@[j]).kind == AttributeArgKind::Salt(v),
                    None => forall|j: int| 0 <= j < i ==> !((#[trigger] args@[j]).kind is Salt),
                },
                match selector {
                    Some(v) => exists|j: int|
                        0 <= j < i && (#[trigger] args@[j]).kind == AttributeArgKind::Selector(v),
                    None => forall|j: int|
                        0 <= j < i ==> !((#[trigger] args@[j]).kind is Selector),
                },
        {
            match args[i].kind {
                AttributeArgKind::Payable => {
                    is_payable = true;
                },
                AttributeArgKind::Salt(v) => {
                    salt = Some(v);
                },
                AttributeArgKind::Selector(v) => {
                    selector = Some(v);
                },
                _ => {},
            }
        }
        Ok(Message { span, ident, self_ref_mut, other_attrs, is_payable, salt, selector })
    }

    /// The `self` receiver of the message.
    pub fn receiver(&self) -> (r: Receiver)
        ensures
            r == self.spec_receiver(),
    {
        if self.self_ref_mut {
            Receiver::RefMut
        } else {
            Receiver::Ref
        }
    }

    /// The identifier of the method.
    pub fn ident(&self) -> (r: &String)
        ensures
            r@ == self.spec_ident(),
    {
        &self.ident
    }

    /// The position of the method declaration.
    pub fn span(&self) -> (r: Span)
        ensures
            r == self.spec_span(),
    {
        self.span
    }

    /// The non-DSL annotations retained on the method, in source order.
    pub fn attrs(&self) -> (r: &Vec<OtherAttribute>)
        ensures
            r@ == self.spec_other_attrs(),
    {
        &self.other_attrs
    }

    /// Whether the message can receive funds.
    pub fn is_payable(&self) -> (r: bool)
        ensures
            r == self.spec_is_payable(),
    {
        self.is_payable
    }

    /// The user-provided salt, if any.
    pub fn salt(&self) -> (r: Option<u64>)
        ensures
            r == self.spec_salt(),
    {
        self.salt
    }

    /// The user-provided selector, if any.
    pub fn selector(&self) -> (r: Option<u32>)
        ensures
            r == self.spec_selector(),
    {
        self.selector
    }
}

} // verus!
