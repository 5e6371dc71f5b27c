//! The shape of a type declaration, as far as generation reads it.

use vstd::prelude::*;
use crate::args::StatusExpression;
use crate::token::{Delimiter, Span, Token};

verus! {

/// What follows the name of an attribute.
#[derive(Debug, PartialEq, Eq)]
pub enum AttributeArguments {
    /// Nothing: `#[name]`.
    Absent,
    /// A delimited token list: `#[name(...)]`.
    Delimited { delimiter: Delimiter, tokens: Vec<Token>, span: Span },
    /// A value: `#[name = ...]`.
    NameValue { value: Vec<Token> },
}

/// One attribute of a variant.
#[derive(Debug, PartialEq, Eq)]
pub struct Attribute {
    pub name: String,
    pub arguments: AttributeArguments,
    pub span: Span,
}

/// The arity of a variant.
#[derive(Debug, PartialEq, Eq)]
pub enum Fields {
    Unit,
    Positional { count: usize },
    Named { names: Vec<String> },
}

/// One named alternative of an enum.
#[derive(Debug, PartialEq, Eq)]
pub struct Variant {
    pub name: String,
    pub fields: Fields,
    pub attrs: Vec<Attribute>,
    /// Present on the synthesized internal-error variant only, where it holds
    /// the resolved status. Such a variant wraps an arbitrary cause and is
    /// opaque for display and serialization.
    pub synthetic: Option<StatusExpression>,
    pub span: Span,
}

/// The body of a type declaration.
#[derive(Debug, PartialEq, Eq)]
pub enum TypeBody {
    Enum(Vec<Variant>),
    Struct,
    Union,
}

/// A type declaration: its name, where the name stands, and its body.
#[derive(Debug, PartialEq, Eq)]
pub struct TypeDeclaration {
    pub name: String,
    pub span: Span,
    pub body: TypeBody,
}

/// A constructed value of a generated error type, as the generated behaviours
/// see it: which variant it is, the display text that the variant renders to,
/// and the display texts of its chain of causes, nearest first.
#[derive(Debug, PartialEq, Eq)]
pub struct ErrorValue {
    pub variant: usize,
    pub display_text: String,
    pub causes: Vec<String>,
}

impl TypeDeclaration {
    /// The variants of an enum declaration, in declaration order.
    pub open spec fn spec_variants(self) -> Option<Seq<Variant>> {
        match self.body {
            TypeBody::Enum(variants) => Some(variants@),
            _ => None,
        }
    }
}

/// The names of `variants`, in order.
pub open spec fn variant_names(variants: Seq<Variant>) -> Seq<Seq<char>> {
    Seq::new(variants.len(), |i: int| variants[i].name@)
}

} // verus!
