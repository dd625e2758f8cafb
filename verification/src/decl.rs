//! Model of the type declaration under processing.
//!
//! The host syntax frontend supplies a type's annotations and, for a struct,
//! its ordered field list with each field's annotations. The pipeline reads
//! nothing else of the declaration — field names and field types are the
//! code generator's concern — so only that much is carried here. Fields are
//! addressed by their position in declaration order.

use vstd::prelude::*;

use crate::attrs::Annotation;

verus! {

/// One field of a struct: the raw annotations attached to it.
#[derive(Debug, Clone)]
pub struct FieldDecl {
    pub attrs: Vec<Annotation>,
}

/// The aggregate shape of the type under processing. Only structs are
/// supported; an enum or union carries just the location of its keyword,
/// where the rejection is reported.
#[derive(Debug, Clone)]
pub enum TypeDecl {
    Struct { attrs: Vec<Annotation>, fields: Vec<FieldDecl> },
    Enum { loc: u64 },
    Union { loc: u64 },
}

} // verus!
