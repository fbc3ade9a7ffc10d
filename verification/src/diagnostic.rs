//! Position-tagged diagnostics.
//!
//! Every grammar violation is reported through one [`Diagnostic`] carrying
//! the narrowest source position available (the offending annotation or
//! field, not the enclosing declaration) and a kind whose wording is part of
//! the observable contract: callers match on the exact message text.

use crate::attrs::Span;
use vstd::prelude::*;

verus! {

/// The kind of grammar violation a [`Diagnostic`] reports.
#[derive(Clone, Copy, PartialEq, Eq, Structural, Debug)]
pub enum DiagnosticKind {
    /// An annotation resembling the DSL's syntax could not be parsed into a
    /// known kind.
    MalformedAttribute,
    /// A declaration has no DSL annotations although a primary one was
    /// required.
    MissingExpectedAttribute,
    /// The same kind (by variant tag) appears more than once on one
    /// declaration or field.
    DuplicateAttribute,
    /// The first annotation's kind does not match the primary kind required
    /// at that position.
    UnexpectedFirstAttribute,
    /// A non-first annotation's kind is outside the legal co-occurrence set
    /// for its context.
    ConflictingAttribute,
    /// An event struct declares generic parameters.
    UnsupportedGenerics,
    /// An event struct is not publicly visible.
    NonPublicVisibility,
    /// The first DSL annotation on an event field is not the topic marker.
    InvalidFieldAttributeOrder,
    /// An event field carries a DSL annotation other than the topic marker.
    ConflictingFieldAttribute,
}

impl DiagnosticKind {
    /// The exact message text reported for this kind.
    pub open spec fn spec_message(self) -> Seq<char> {
        match self {
            DiagnosticKind::MalformedAttribute => "encountered malformed ink! attribute"@,
            DiagnosticKind::MissingExpectedAttribute => "encountered unexpected empty expanded ink! attribute arguments"@,
            DiagnosticKind::DuplicateAttribute => "encountered duplicate ink! attribute"@,
            DiagnosticKind::UnexpectedFirstAttribute => "unexpected first ink! attribute argument"@,
            DiagnosticKind::ConflictingAttribute => "encountered conflicting ink! attribute argument"@,
            DiagnosticKind::UnsupportedGenerics => "generic ink! event structs are not supported"@,
            DiagnosticKind::NonPublicVisibility => "non `pub` ink! event structs are not supported"@,
            DiagnosticKind::InvalidFieldAttributeOrder => "first optional ink! attribute of an event field must be #[ink(topic)]"@,
            DiagnosticKind::ConflictingFieldAttribute => "encountered conflicting ink! attribute for event field"@,
        }
    }
}

/// A single fail-fast diagnostic: the first violation a builder found.
///
/// `notes` carries the positions of enclosing constructs chained onto the
/// diagnostic for context (such as the field at whose invocation a nested
/// violation surfaced); the primary kind and position are unaffected by
/// chaining, and only the primary kind determines [`Diagnostic::message`].
#[derive(Debug)]
pub struct Diagnostic {
    pub kind: DiagnosticKind,
    pub span: Span,
    pub notes: Vec<Span>,
}

impl Diagnostic {
    /// Creates a diagnostic of `kind` at `span` with no chained context.
    pub fn new(kind: DiagnosticKind, span: Span) -> (r: Diagnostic)
        ensures
            r.kind == kind,
            r.span == span,
            r.notes@ == Seq::<Span>::empty(),
    {
        Diagnostic { kind, span, notes: Vec::new() }
    }

    /// Chains the position of an enclosing construct onto this diagnostic;
    /// the primary kind and position stay as they are.
    pub fn into_combine(self, note: Span) -> (r: Diagnostic)
        ensures
            r.kind == self.kind,
            r.span == self.span,
            r.notes@ == self.notes@.push(note),
    {
        let Diagnostic { kind, span, mut notes } = self;
        notes.push(note);
        Diagnostic { kind, span, notes }
    }

    /// The human-readable message for this diagnostic's kind; the wording is
    /// part of the contract and tooling matches on it exactly.
    pub fn message(&self) -> (r: String)
        ensures
            r@ == self.kind.spec_message(),
    {
        match self.kind {
            DiagnosticKind::MalformedAttribute => "encountered malformed ink! attribute".to_string(),
            DiagnosticKind::MissingExpectedAttribute => "encountered unexpected empty expanded ink! attribute arguments".to_string(),
            DiagnosticKind::DuplicateAttribute => "encountered duplicate ink! attribute".to_string(),
            DiagnosticKind::UnexpectedFirstAttribute => "unexpected first ink! attribute argument".to_string(),
            DiagnosticKind::ConflictingAttribute => "encountered conflicting ink! attribute argument".to_string(),
            DiagnosticKind::UnsupportedGenerics => "generic ink! event structs are not supported".to_string(),
            DiagnosticKind::NonPublicVisibility => "non `pub` ink! event structs are not supported".to_string(),
            DiagnosticKind::InvalidFieldAttributeOrder => "first optional ink! attribute of an event field must be #[ink(topic)]".to_string(),
            DiagnosticKind::ConflictingFieldAttribute => "encountered conflicting ink! attribute for event field".to_string(),
        }
    }
}

} // verus!
