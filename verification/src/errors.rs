//! What can go wrong with a request, as values.

use vstd::prelude::*;

verus! {

/// Why a well-formed JSON document is not of the shape that an endpoint
/// promises. Each variant but the first names the member it is about.
#[derive(Debug, PartialEq, Eq)]
pub enum ShapeError {
    /// An object was expected and something else was found.
    NotAnObject,
    /// The object has a member that the shape does not know.
    UnknownField(String),
    /// The object has the same member more than once.
    DuplicateField(String),
    /// The object lacks a member that the shape requires.
    MissingField(String),
    /// The member's value has the wrong type.
    WrongType(String),
}

/// Mathematical model of a [`ShapeError`].
pub enum ShapeErrorView {
    NotAnObject,
    UnknownField(Seq<char>),
    DuplicateField(Seq<char>),
    MissingField(Seq<char>),
    WrongType(Seq<char>),
}

impl View for ShapeError {
    type V = ShapeErrorView;

    open spec fn view(&self) -> ShapeErrorView {
        match self {
            ShapeError::NotAnObject => ShapeErrorView::NotAnObject,
            ShapeError::UnknownField(key) => ShapeErrorView::UnknownField(key@),
            ShapeError::DuplicateField(key) => ShapeErrorView::DuplicateField(key@),
            ShapeError::MissingField(key) => ShapeErrorView::MissingField(key@),
            ShapeError::WrongType(key) => ShapeErrorView::WrongType(key@),
        }
    }
}

/// Why a response body could not be turned into the expected value.
#[derive(Debug)]
pub enum DecodeError {
    /// The body is not JSON. The parser's own error is kept for diagnosis.
    Syntax(serde_json::Error),
    /// The body is JSON of another shape.
    Shape(ShapeError),
}

/// Mathematical model of a [`DecodeError`]. The parser's error is opaque and
/// leaves no trace in the model.
pub enum DecodeErrorView {
    Syntax,
    Shape(ShapeErrorView),
}

impl View for DecodeError {
    type V = DecodeErrorView;

    open spec fn view(&self) -> DecodeErrorView {
        match self {
            DecodeError::Syntax(_) => DecodeErrorView::Syntax,
            DecodeError::Shape(error) => DecodeErrorView::Shape(error@),
        }
    }
}

/// The error of every request. None is retried and none is fatal: each is
/// handed to the caller as it arose.
#[derive(Debug)]
pub enum ReplicateError {
    /// No response arrived. Holds the transport's description of the failure.
    TransportError(String),
    /// The status was outside the success range. Holds the body as received.
    ResponseError(String),
    /// The status was a success and the body could not be decoded.
    DecodeError(DecodeError),
}

/// Mathematical model of a [`ReplicateError`].
pub enum ReplicateErrorView {
    TransportError(Seq<char>),
    ResponseError(Seq<char>),
    DecodeError(DecodeErrorView),
}

impl View for ReplicateError {
    type V = ReplicateErrorView;

    open spec fn view(&self) -> ReplicateErrorView {
        match self {
            ReplicateError::TransportError(message) => ReplicateErrorView::TransportError(
                message@,
            ),
            ReplicateError::ResponseError(body) => ReplicateErrorView::ResponseError(body@),
            ReplicateError::DecodeError(error) => ReplicateErrorView::DecodeError(error@),
        }
    }
}

/// Model of the result of a request.
pub open spec fn outcome_view<T: View>(result: Result<T, ReplicateError>) -> Result<
    T::V,
    ReplicateErrorView,
> {
    match result {
        Ok(value) => Ok(value@),
        Err(error) => Err(error@),
    }
}

} // verus!
