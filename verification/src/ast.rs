//! Model of a type declaration, reduced to the facts validation reads.
//!
//! A front end lowers a real declaration into these plain values: the
//! type's name, its attributes (each an attribute name with, when the
//! attribute is a parenthesised list, its arguments), and its body (an
//! enumeration with its variants, or some other shape).

use vstd::prelude::*;

verus! {

/// One argument inside a parenthesised attribute list: a bare word
/// (an identifier, or the single-identifier path of a nested item),
/// or anything else such as a literal.
#[derive(Debug, Clone, PartialEq, Eq)]
pub enum MetaArg {
    Word(String),
    Other,
}

/// An attribute on a declaration.
///
/// `name` is the attribute's path when that path is a single identifier
/// (empty otherwise); `args` holds the arguments when the attribute is a
/// well-formed parenthesised list, and is `None` when it is of another
/// form or its syntax could not be parsed.
#[derive(Debug, Clone, PartialEq, Eq)]
pub struct AttrDecl {
    pub name: String,
    pub args: Option<Vec<MetaArg>>,
}

/// One variant of an enumeration: its name, whether it carries
/// associated fields, and whether it spells an explicit discriminant.
#[derive(Debug, Clone, PartialEq, Eq)]
pub struct VariantDecl {
    pub name: String,
    pub has_fields: bool,
    pub has_discriminant: bool,
}

/// The body of a type declaration.
#[derive(Debug, Clone, PartialEq, Eq)]
pub enum TypeBody {
    Enum(Vec<VariantDecl>),
    Struct,
    Union,
}

/// A type declaration as the validator sees it.
#[derive(Debug, Clone, PartialEq, Eq)]
pub struct Declaration {
    pub name: String,
    pub attrs: Vec<AttrDecl>,
    pub body: TypeBody,
}

} // verus!
