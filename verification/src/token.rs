//! The token model on which annotations are written.

use vstd::prelude::*;

verus! {

/// A half-open range of source positions, identifying where a construct was written.
#[derive(Clone, Copy, Debug, PartialEq, Eq, Structural)]
pub struct Span {
    pub start: u64,
    pub end: u64,
}

/// The bracket kind that encloses a group of tokens.
#[derive(Clone, Copy, Debug, PartialEq, Eq, Structural)]
pub enum Delimiter {
    Parenthesis,
    Brace,
    Bracket,
}

/// One token tree of an annotation.
#[derive(Debug, PartialEq, Eq)]
pub enum Token {
    /// An identifier.
    Ident { name: String, span: Span },
    /// A single punctuation character; `joint` says that the next token
    /// follows it without a gap, as the first `:` of `::` does.
    Punct { ch: char, joint: bool, span: Span },
    /// A literal, kept as its source text.
    Literal { text: String, span: Span },
    /// A delimited sequence of tokens.
    Group { delimiter: Delimiter, tokens: Vec<Token>, span: Span },
}

impl Token {
    /// The source position of this token.
    pub open spec fn spec_span(self) -> Span {
        match self {
            Token::Ident { span, .. } => span,
            Token::Punct { span, .. } => span,
            Token::Literal { span, .. } => span,
            Token::Group { span, .. } => span,
        }
    }

    /// The source position of this token.
    pub fn span(&self) -> (s: Span)
        ensures
            s == self.spec_span(),
    {
        match self {
            Token::Ident { span, .. } => *span,
            Token::Punct { span, .. } => *span,
            Token::Literal { span, .. } => *span,
            Token::Group { span, .. } => *span,
        }
    }
}

} // verus!
