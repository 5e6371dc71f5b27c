//! Located diagnostics.

use vstd::prelude::*;
use crate::token::Span;

verus! {

/// A failure of annotation parsing or of generation, with the position of the
/// construct that caused it.
#[derive(Debug, PartialEq, Eq)]
pub enum GenerationError {
    /// An annotation uses a key outside the recognized set.
    UnsupportedAttributeKey { key: String, location: Span },
    /// A required key is absent from an annotation.
    MissingRequiredKey { key: String, location: Span },
    /// The annotated type is not an enum.
    NotAnEnum { location: Span },
    /// A variant carries no status annotation at all.
    MissingAnnotationOnVariant { variant: String, location: Span },
    /// A key was expected where another kind of token stands.
    ExpectedIdentifier { location: Span },
    /// A key is not followed by `=`.
    ExpectedEquals { location: Span },
    /// A status annotation has no delimited argument list.
    ExpectedDelimiter { location: Span },
}

/// The mathematical value of a [`GenerationError`].
pub enum GenerationErrorView {
    UnsupportedAttributeKey { key: Seq<char>, location: Span },
    MissingRequiredKey { key: Seq<char>, location: Span },
    NotAnEnum { location: Span },
    MissingAnnotationOnVariant { variant: Seq<char>, location: Span },
    ExpectedIdentifier { location: Span },
    ExpectedEquals { location: Span },
    ExpectedDelimiter { location: Span },
}

impl View for GenerationError {
    type V = GenerationErrorView;

    open spec fn view(&self) -> GenerationErrorView {
        match *self {
            GenerationError::UnsupportedAttributeKey { key, location } =>
                GenerationErrorView::UnsupportedAttributeKey { key: key@, location },
            GenerationError::MissingRequiredKey { key, location } =>
                GenerationErrorView::MissingRequiredKey { key: key@, location },
            GenerationError::NotAnEnum { location } => GenerationErrorView::NotAnEnum { location },
            GenerationError::MissingAnnotationOnVariant { variant, location } =>
                GenerationErrorView::MissingAnnotationOnVariant { variant: variant@, location },
            GenerationError::ExpectedIdentifier { location } =>
                GenerationErrorView::ExpectedIdentifier { location },
            GenerationError::ExpectedEquals { location } =>
                GenerationErrorView::ExpectedEquals { location },
            GenerationError::ExpectedDelimiter { location } =>
                GenerationErrorView::ExpectedDelimiter { location },
        }
    }
}

impl GenerationErrorView {
    /// The position that the diagnostic points at.
    pub open spec fn location(self) -> Span {
        match self {
            GenerationErrorView::UnsupportedAttributeKey { location, .. } => location,
            GenerationErrorView::MissingRequiredKey { location, .. } => location,
            GenerationErrorView::NotAnEnum { location } => location,
            GenerationErrorView::MissingAnnotationOnVariant { location, .. } => location,
            GenerationErrorView::ExpectedIdentifier { location } => location,
            GenerationErrorView::ExpectedEquals { location } => location,
            GenerationErrorView::ExpectedDelimiter { location } => location,
        }
    }
}

impl GenerationError {
    /// The position that the diagnostic points at.
    pub fn location(&self) -> (s: Span)
        ensures
            s == self@.location(),
    {
        match self {
            GenerationError::UnsupportedAttributeKey { location, .. } => *location,
            GenerationError::MissingRequiredKey { location, .. } => *location,
            GenerationError::NotAnEnum { location } => *location,
            GenerationError::MissingAnnotationOnVariant { location, .. } => *location,
            GenerationError::ExpectedIdentifier { location } => *location,
            GenerationError::ExpectedEquals { location } => *location,
            GenerationError::ExpectedDelimiter { location } => *location,
        }
    }
}

} // verus!
