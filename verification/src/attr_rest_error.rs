//! The type-level annotation: appending the internal-error variant, and the
//! debug formatting that walks a chain of causes.

use vstd::prelude::*;
use vstd::string::*;
use crate::args::{RestErrorMacroArguments, StatusExpression};
use crate::decl::{ErrorValue, Fields, TypeBody, TypeDeclaration, Variant};
use crate::error::GenerationError;
use crate::token::Span;

verus! {

/// A behaviour that the annotated type is asked to derive.
#[derive(Clone, Copy, Debug, PartialEq, Eq, Structural)]
pub enum DerivedTrait {
    /// The status mapping, response conversion, serialization and schema.
    RestError,
    /// The variant's name as text.
    AsRefStr,
    /// Display text and the chain of causes.
    Error,
}

/// The debug formatting generated for a type.
#[derive(Debug, PartialEq, Eq)]
pub struct DebugImpl {
    pub enum_name: String,
}

/// What the type-level annotation expands to.
#[derive(Debug, PartialEq, Eq)]
pub struct AttributeExpansion {
    pub derives: Vec<DerivedTrait>,
    pub declaration: TypeDeclaration,
    pub debug: DebugImpl,
}

/// Whether `variant` is the synthesized internal-error variant with status
/// `status`, placed at `span`: it is named `InternalError`, has one positional
/// field, no attributes, and carries the status together with the opaque mark.
pub open spec fn is_internal_error_variant(
    variant: Variant,
    status: StatusExpression,
    span: Span,
) -> bool {
    &&& variant.name@ == "InternalError"@
    &&& variant.fields == (Fields::Positional { count: 1 })
    &&& variant.attrs@.len() == 0
    &&& variant.synthetic == Some(status)
    &&& variant.span == span
}

/// The variants of the expanded declaration: the declared ones, followed by
/// the internal-error variant where one was requested.
pub open spec fn augmented_variants(
    args: RestErrorMacroArguments,
    declared: Seq<Variant>,
    span: Span,
    augmented: Seq<Variant>,
) -> bool {
    match args.internal_error {
        None => augmented == declared,
        Some(request) => {
            &&& augmented.len() == declared.len() + 1
            &&& augmented.subrange(0, declared.len() as int) == declared
            &&& is_internal_error_variant(augmented.last(), request.status_code, span)
        },
    }
}

/// The relation between the input of [`rest_error_macro`] and its result.
pub open spec fn attribute_expansion_spec(
    args: RestErrorMacroArguments,
    input: TypeDeclaration,
    result: Result<AttributeExpansion, GenerationError>,
) -> bool {
    match result {
        Ok(expansion) => {
            &&& input.spec_variants() is Some
            &&& expansion.declaration.spec_variants() is Some
            &&& augmented_variants(
                args,
                input.spec_variants().unwrap(),
                input.span,
                expansion.declaration.spec_variants().unwrap(),
            )
            &&& expansion.declaration.name == input.name
            &&& expansion.declaration.span == input.span
            &&& expansion.debug.enum_name == input.name
            &&& expansion.derives@ == seq![
                DerivedTrait::RestError,
                DerivedTrait::AsRefStr,
                DerivedTrait::Error,
            ]
        },
        Err(e) => {
            &&& input.spec_variants() is None
            &&& e == (GenerationError::NotAnEnum { location: input.span })
        },
    }
}

/// Expands the type-level annotation on `input`. An enum comes back with the
/// internal-error variant appended where `args` asks for one, together with
/// the list of behaviours to derive and its debug formatting. Anything but an
/// enum is refused, and nothing is generated.
pub fn rest_error_macro(args: RestErrorMacroArguments, input: TypeDeclaration) -> (result: Result<
    AttributeExpansion,
    GenerationError,
>)
    ensures
        attribute_expansion_spec(args, input, result),
{
    let TypeDeclaration { name, span, body } = input;
    let mut variants = match body {
        TypeBody::Enum(variants) => variants,
        _ => {
            return Err(GenerationError::NotAnEnum { location: span });
        },
    };
    let ghost declared = variants@;
    match args.internal_error {
        Some(request) => {
            let variant = Variant {
                name: String::from_str("InternalError"),
                fields: Fields::Positional { count: 1 },
                attrs: Vec::new(),
                synthetic: Some(request.status_code),
                span,
            };
            variants.push(variant);
            assert(variants@.subrange(0, declared.len() as int) =~= declared);
        },
        None => {},
    }
    let mut derives: Vec<DerivedTrait> = Vec::new();
    derives.push(DerivedTrait::RestError);
    derives.push(DerivedTrait::AsRefStr);
    derives.push(DerivedTrait::Error);
    assert(derives@ =~= seq![DerivedTrait::RestError, DerivedTrait::AsRefStr, DerivedTrait::Error]);
    let debug = DebugImpl { enum_name: name.clone() };
    Ok(
        AttributeExpansion {
            derives,
            declaration: TypeDeclaration { name, span, body: TypeBody::Enum(variants) },
            debug,
        },
    )
}

/// The line that reports one cause.
pub open spec fn cause_line(cause: Seq<char>) -> Seq<char> {
    "Caused by: "@ + cause
}

/// The lines of the debug rendering of `value`: its display text, then one
/// line for each cause, nearest first.
pub open spec fn debug_lines(value: ErrorValue) -> Seq<Seq<char>> {
    Seq::new(
        value.causes@.len() + 1,
        |i: int|
            if i == 0 {
                value.display_text@
            } else {
                cause_line(value.causes@[i - 1]@)
            },
    )
}

/// The texts of `lines`.
pub open spec fn line_texts(lines: Seq<String>) -> Seq<Seq<char>> {
    Seq::new(lines.len(), |i: int| lines[i]@)
}

impl DebugImpl {
    /// Renders `value` for debugging, one line per element of the result: the
    /// display text first, then the causes in the order in which they are
    /// reached from the value.
    pub fn fmt(&self, value: &ErrorValue) -> (lines: Vec<String>)
        ensures
            line_texts(lines@) == debug_lines(*value),
    {
        let mut lines: Vec<String> = Vec::new();
        lines.push(value.display_text.clone());
        let mut i: usize = 0;
        while i < value.causes.len()
            invariant
                i <= value.causes.len(),
                lines@.len() == i + 1,
                lines@[0]@ == value.display_text@,
                forall|k: int|
                    1 <= k <= i ==> (#[trigger] lines@[k])@ == cause_line(value.causes@[k - 1]@),
            decreases value.causes.len() - i,
        {
            let line = String::from_str("Caused by: ").concat(value.causes[i].as_str());
            lines.push(line);
            i += 1;
        }
        assert(line_texts(lines@) =~= debug_lines(*value));
        lines
    }
}

} // verus!
