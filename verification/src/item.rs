//! Models of the declarations the IR builders consume.
//!
//! A front-end (a parser of real source text) converts its own declaration
//! tree into these plain forms: every part the grammar rules read — the raw
//! annotation list, the visibility, the generic parameters, the fields, the
//! receiver — is held as a plain value.

use crate::attrs::RawAttribute;
use crate::attrs::Span;
use vstd::prelude::*;

verus! {

/// The visibility form of a declaration.
#[derive(Clone, Copy, PartialEq, Eq, Structural, Debug)]
pub enum VisibilityKind {
    /// The public, unrestricted form.
    Public,
    /// Crate-local visibility.
    Crate,
    /// A restricted form such as a path-qualified one.
    Restricted,
    /// No visibility marker at all.
    Inherited,
}

/// A declaration's visibility with the position of its marker (or, for the
/// inherited form, of the place where one would stand).
#[derive(Clone, Copy, PartialEq, Eq, Structural, Debug)]
pub struct Visibility {
    pub kind: VisibilityKind,
    pub span: Span,
}

/// One generic parameter of a declaration.
#[derive(Debug)]
pub struct GenericParam {
    pub ident: String,
    pub span: Span,
}

/// One field of a struct-like declaration, with its own raw annotations.
#[derive(Debug)]
pub struct Field {
    pub span: Span,
    pub attrs: Vec<RawAttribute>,
    pub vis: Visibility,
    /// The field's name; a tuple-struct field has none.
    pub ident: Option<String>,
    /// The field's type, as the text the front-end read.
    pub ty: String,
}

/// A struct-like declaration as handed over by the front-end.
#[derive(Debug)]
pub struct ItemStruct {
    pub span: Span,
    pub attrs: Vec<RawAttribute>,
    pub vis: Visibility,
    pub ident: String,
    pub generics: Vec<GenericParam>,
    pub fields: Vec<Field>,
}

/// A method-like declaration as handed over by the front-end.
#[derive(Debug)]
pub struct ItemMethod {
    pub span: Span,
    pub attrs: Vec<RawAttribute>,
    pub ident: String,
    /// Whether the method's self-parameter is taken by mutable reference.
    pub self_ref_mut: bool,
}

} // verus!
