//! Validated intermediate representation for a contract DSL's tagged
//! annotations.
//!
//! A front-end hands this crate declarations (struct-like or method-like)
//! whose annotations are already tokenized into kinds and source positions.
//! The crate classifies those annotations, enforces the ordering, uniqueness
//! and co-occurrence grammar, and builds immutable IR nodes ([`Event`] and
//! [`Message`]) for a code-generation back-end, reporting precise
//! position-tagged diagnostics on any violation.

pub mod attrs;
pub mod diagnostic;
pub mod event;
pub mod item;
pub mod message;

pub use attrs::AttributeArgKind;
pub use attrs::KindTag;
pub use attrs::Span;
pub use diagnostic::Diagnostic;
pub use diagnostic::DiagnosticKind;
pub use event::Event;
pub use event::EventField;
pub use event::EventFieldsIter;
pub use message::Message;
pub use message::Receiver;
