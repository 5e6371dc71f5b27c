//! Declarative description of REST error enums: annotation parsing, the
//! synthetic internal-error variant, and the behaviours derived from a
//! finished enum description.

use vstd::prelude::*;
use crate::args::{macro_args_spec, requested_status, RestErrorMacroArguments};
use crate::attr_rest_error::{attribute_expansion_spec, rest_error_macro, AttributeExpansion};
use crate::decl::TypeDeclaration;
use crate::derive_rest_error::{derive_rest_error_macro, derive_spec, GeneratedImpls};
use crate::error::GenerationError;
use crate::token::Token;

pub mod args;
pub mod attr_rest_error;
pub mod behaviour;
pub mod decl;
pub mod derive_rest_error;
pub mod error;
pub mod token;

verus! {

/// What an expansion hands back: the generated definitions, or a diagnostic
/// to report in their place.
#[derive(Debug, PartialEq, Eq)]
pub enum MacroOutput<T> {
    Expanded(T),
    CompileError(GenerationError),
}

impl<T> MacroOutput<T> {
    /// The output as a result.
    pub open spec fn as_result(self) -> Result<T, GenerationError> {
        match self {
            MacroOutput::Expanded(generated) => Ok(generated),
            MacroOutput::CompileError(e) => Err(e),
        }
    }
}

/// The type-level annotation, from its tokens: the tokens are parsed, and the
/// annotated declaration is expanded with what they ask for. A failure of
/// either step is the whole output.
pub fn rest_error(args: Vec<Token>, input: TypeDeclaration) -> (output: MacroOutput<AttributeExpansion>)
    ensures
        match macro_args_spec(args@, None) {
            Err(e) => output matches MacroOutput::CompileError(reported) && reported@ == e,
            Ok(request) => exists|parsed: RestErrorMacroArguments|
                requested_status(parsed.internal_error) == request && #[trigger] attribute_expansion_spec(
                    parsed,
                    input,
                    output.as_result(),
                ),
        },
{
    let parsed = match RestErrorMacroArguments::parse(args) {
        Ok(parsed) => parsed,
        Err(e) => {
            return MacroOutput::CompileError(e);
        },
    };
    match rest_error_macro(parsed, input) {
        Ok(expansion) => {
            assert(attribute_expansion_spec(parsed, input, Ok(expansion)));
            MacroOutput::Expanded(expansion)
        },
        Err(e) => {
            assert(attribute_expansion_spec(parsed, input, Err(e)));
            MacroOutput::CompileError(e)
        },
    }
}

/// The derivation of all behaviours for a declaration, with a failure as the
/// whole output.
pub fn derive_rest_error(input: TypeDeclaration) -> (output: MacroOutput<GeneratedImpls>)
    ensures
        derive_spec(input, output.as_result()),
{
    match derive_rest_error_macro(input) {
        Ok(generated) => MacroOutput::Expanded(generated),
        Err(e) => MacroOutput::CompileError(e),
    }
}

} // verus!
