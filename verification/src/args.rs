//! The annotation grammar and its parser.
//!
//! ```text
//! TypeArgs    := ( "internal_error" [ "(" VariantArgs ")" ] )*
//! VariantArgs := "status_code" "=" Expression
//! ```
//!
//! An expression is every token that follows the `=`, kept as written.

use vstd::prelude::*;
use vstd::string::*;
use crate::error::{GenerationError, GenerationErrorView};
use crate::token::{Delimiter, Span, Token};

verus! {

/// A symbolic status: either the canonical "internal server error" status or
/// the tokens that the programmer wrote, which are never interpreted.
#[derive(Debug, PartialEq, Eq)]
pub enum StatusExpression {
    InternalServerError,
    Verbatim(Vec<Token>),
}

/// The mathematical value of a [`StatusExpression`].
pub enum StatusExpressionView {
    InternalServerError,
    Verbatim(Seq<Token>),
}

impl View for StatusExpression {
    type V = StatusExpressionView;

    open spec fn view(&self) -> StatusExpressionView {
        match *self {
            StatusExpression::InternalServerError => StatusExpressionView::InternalServerError,
            StatusExpression::Verbatim(tokens) => StatusExpressionView::Verbatim(tokens@),
        }
    }
}

/// The arguments of a variant-level annotation.
#[derive(Debug, PartialEq, Eq)]
pub struct RestErrorVariantArguments {
    pub status_code: StatusExpression,
}

/// The arguments of the type-level annotation.
#[derive(Debug, PartialEq, Eq)]
pub struct RestErrorMacroArguments {
    pub internal_error: Option<RestErrorVariantArguments>,
}

/// What parsing a variant-level annotation yields, as mathematical values.
pub open spec fn variant_outcome(
    result: Result<RestErrorVariantArguments, GenerationError>,
) -> Result<StatusExpressionView, GenerationErrorView> {
    match result {
        Ok(args) => Ok(args.status_code@),
        Err(e) => Err(e@),
    }
}

/// What parsing the type-level annotation yields, as mathematical values.
pub open spec fn macro_outcome(
    result: Result<RestErrorMacroArguments, GenerationError>,
) -> Result<Option<StatusExpressionView>, GenerationErrorView> {
    match result {
        Ok(args) => Ok(requested_status(args.internal_error)),
        Err(e) => Err(e@),
    }
}

/// The status that an internal-error request resolves to, if there is a request.
pub open spec fn requested_status(request: Option<RestErrorVariantArguments>) -> Option<
    StatusExpressionView,
> {
    match request {
        Some(args) => Some(args.status_code@),
        None => None,
    }
}

/// The meaning of the tokens of a variant-level annotation. `scope` is the
/// position of the annotation's argument list, blamed when a token is missing.
pub open spec fn variant_args_spec(tokens: Seq<Token>, scope: Span) -> Result<
    StatusExpressionView,
    GenerationErrorView,
> {
    if tokens.len() == 0 {
        Err(GenerationErrorView::MissingRequiredKey { key: "status_code"@, location: scope })
    } else {
        match tokens[0] {
            Token::Ident { name, span } => {
                if name@ != "status_code"@ {
                    Err(GenerationErrorView::UnsupportedAttributeKey { key: name@, location: span })
                } else if tokens.len() == 1 {
                    Err(GenerationErrorView::ExpectedEquals { location: scope })
                } else {
                    match tokens[1] {
                        Token::Punct { ch: '=', .. } => Ok(
                            StatusExpressionView::Verbatim(tokens.subrange(2, tokens.len() as int)),
                        ),
                        other => Err(
                            GenerationErrorView::ExpectedEquals { location: other.spec_span() },
                        ),
                    }
                }
            },
            other => Err(GenerationErrorView::ExpectedIdentifier { location: other.spec_span() }),
        }
    }
}

/// Whether `token` is a parenthesized group.
pub open spec fn is_parenthesized(token: Token) -> bool {
    token matches Token::Group { delimiter: Delimiter::Parenthesis, .. }
}

/// The meaning of the tokens of the type-level annotation, read from left to
/// right with `request` standing for what the keys read so far asked for. A
/// later `internal_error` key replaces an earlier one.
pub open spec fn macro_args_spec(tokens: Seq<Token>, request: Option<StatusExpressionView>) -> Result<
    Option<StatusExpressionView>,
    GenerationErrorView,
>
    decreases tokens.len(),
{
    if tokens.len() == 0 {
        Ok(request)
    } else {
        match tokens[0] {
            Token::Ident { name, span } => {
                if name@ != "internal_error"@ {
                    Err(GenerationErrorView::UnsupportedAttributeKey { key: name@, location: span })
                } else if tokens.len() >= 2 && is_parenthesized(tokens[1]) {
                    match variant_args_spec(tokens[1]->Group_tokens@, tokens[1].spec_span()) {
                        Ok(status) => macro_args_spec(
                            tokens.subrange(2, tokens.len() as int),
                            Some(status),
                        ),
                        Err(e) => Err(e),
                    }
                } else {
                    macro_args_spec(
                        tokens.subrange(1, tokens.len() as int),
                        Some(StatusExpressionView::InternalServerError),
                    )
                }
            },
            other => Err(GenerationErrorView::ExpectedIdentifier { location: other.spec_span() }),
        }
    }
}

/// Whether `token` is the identifier `text`.
pub open spec fn is_ident(token: Token, text: Seq<char>) -> bool {
    token matches Token::Ident { name, .. } && name@ == text
}

/// The key `internal_error` alone asks for the canonical internal-server-error
/// status.
pub proof fn bare_internal_error_is_canonical(key: Token)
    requires
        is_ident(key, "internal_error"@),
    ensures
        macro_args_spec(seq![key], None) == Ok::<Option<StatusExpressionView>, GenerationErrorView>(
            Some(StatusExpressionView::InternalServerError),
        ),
{
    let tokens = seq![key];
    let rest = tokens.subrange(1, tokens.len() as int);
    assert(rest.len() == 0);
    assert(macro_args_spec(rest, Some(StatusExpressionView::InternalServerError)) == Ok::<
        Option<StatusExpressionView>,
        GenerationErrorView,
    >(Some(StatusExpressionView::InternalServerError)));
}

/// The key `internal_error` with `(status_code = X)` asks for `X`, token for
/// token as it was written.
pub proof fn internal_error_status_is_verbatim(
    key: Token,
    group: Token,
    status_key: Token,
    equals: Token,
    expression: Seq<Token>,
)
    requires
        is_ident(key, "internal_error"@),
        is_parenthesized(group),
        group->Group_tokens@ == seq![status_key, equals] + expression,
        is_ident(status_key, "status_code"@),
        equals matches Token::Punct { ch: '=', .. },
    ensures
        macro_args_spec(seq![key, group], None) == Ok::<
            Option<StatusExpressionView>,
            GenerationErrorView,
        >(Some(StatusExpressionView::Verbatim(expression))),
{
    let inner = group->Group_tokens@;
    assert(inner.subrange(2, inner.len() as int) =~= expression);
    assert(variant_args_spec(inner, group.spec_span()) == Ok::<
        StatusExpressionView,
        GenerationErrorView,
    >(StatusExpressionView::Verbatim(expression)));
    let tokens = seq![key, group];
    let rest = tokens.subrange(2, tokens.len() as int);
    assert(rest.len() == 0);
    assert(macro_args_spec(rest, Some(StatusExpressionView::Verbatim(expression))) == Ok::<
        Option<StatusExpressionView>,
        GenerationErrorView,
    >(Some(StatusExpressionView::Verbatim(expression))));
}

impl RestErrorVariantArguments {
    /// Parses the tokens of a variant-level annotation.
    pub fn parse(tokens: Vec<Token>, scope: Span) -> (result: Result<Self, GenerationError>)
        ensures
            variant_outcome(result) == variant_args_spec(tokens@, scope),
    {
        let mut rest = tokens;
        if rest.len() == 0 {
            return Err(
                GenerationError::MissingRequiredKey {
                    key: String::from_str("status_code"),
                    location: scope,
                },
            );
        }
        let first = rest.remove(0);
        match first {
            Token::Ident { name, span } => {
                let wanted = String::from_str("status_code");
                if name != wanted {
                    return Err(GenerationError::UnsupportedAttributeKey { key: name, location: span });
                }
                if rest.len() == 0 {
                    return Err(GenerationError::ExpectedEquals { location: scope });
                }
                let second = rest.remove(0);
                match second {
                    Token::Punct { ch, span, .. } => {
                        if ch == '=' {
                            assert(rest@ =~= tokens@.subrange(2, tokens@.len() as int));
                            Ok(
                                RestErrorVariantArguments {
                                    status_code: StatusExpression::Verbatim(rest),
                                },
                            )
                        } else {
                            Err(GenerationError::ExpectedEquals { location: span })
                        }
                    },
                    other => Err(GenerationError::ExpectedEquals { location: other.span() }),
                }
            },
            other => Err(GenerationError::ExpectedIdentifier { location: other.span() }),
        }
    }
}

impl RestErrorMacroArguments {
    /// Parses the tokens of the type-level annotation.
    pub fn parse(tokens: Vec<Token>) -> (result: Result<Self, GenerationError>)
        ensures
            macro_outcome(result) == macro_args_spec(tokens@, None),
    {
        let mut rest = tokens;
        let mut internal_error: Option<RestErrorVariantArguments> = None;
        while rest.len() > 0
            invariant
                macro_args_spec(rest@, requested_status(internal_error)) == macro_args_spec(
                    tokens@,
                    None,
                ),
            decreases rest.len(),
        {
            let ghost before = rest@;
            let first = rest.remove(0);
            match first {
                Token::Ident { name, span } => {
                    let wanted = String::from_str("internal_error");
                    if name != wanted {
                        return Err(
                            GenerationError::UnsupportedAttributeKey { key: name, location: span },
                        );
                    }
                    let grouped = rest.len() > 0 && match &rest[0] {
                        Token::Group { delimiter: Delimiter::Parenthesis, .. } => true,
                        _ => false,
                    };
                    if grouped {
                        let group = rest.remove(0);
                        assert(rest@ =~= before.subrange(2, before.len() as int));
                        match group {
                            Token::Group { tokens: inner, span: group_span, .. } => {
                                match RestErrorVariantArguments::parse(inner, group_span) {
                                    Ok(args) => {
                                        internal_error = Some(args);
                                    },
                                    Err(e) => {
                                        return Err(e);
                                    },
                                }
                            },
                            _ => {
                                assert(false);
                            },
                        }
                    } else {
                        assert(rest@ =~= before.subrange(1, before.len() as int));
                        internal_error =
                        Some(
                            RestErrorVariantArguments {
                                status_code: StatusExpression::InternalServerError,
                            },
                        );
                    }
                },
                other => {
                    return Err(GenerationError::ExpectedIdentifier { location: other.span() });
                },
            }
        }
        Ok(RestErrorMacroArguments { internal_error })
    }
}

} // verus!
