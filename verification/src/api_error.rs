//! Errors the job endpoints answer with.
use vstd::prelude::*;

verus! {

/// The HTTP-facing class of an error.
#[derive(Clone, Copy, Debug, PartialEq, Eq)]
pub enum ApiErrorKind {
    /// A server-side fault (500).
    Internal,
    /// The request conflicts with work in progress (409).
    Conflict,
    /// The request is well formed but not acceptable (422).
    Unprocessable,
}

/// An error with its class and its message.
pub struct ApiError {
    pub kind: ApiErrorKind,
    pub message: String,
}

impl ApiError {
    /// An internal error with `message`.
    pub fn internal(message: &str) -> (e: ApiError)
        ensures
            e.kind == ApiErrorKind::Internal,
            e.message@ == message@,
    {
        ApiError { kind: ApiErrorKind::Internal, message: String::from_str(message) }
    }

    /// A conflict with `message`.
    pub fn conflict(message: &str) -> (e: ApiError)
        ensures
            e.kind == ApiErrorKind::Conflict,
            e.message@ == message@,
    {
        ApiError { kind: ApiErrorKind::Conflict, message: String::from_str(message) }
    }

    /// An unprocessable request with `message`.
    pub fn unprocessable(message: String) -> (e: ApiError)
        ensures
            e.kind == ApiErrorKind::Unprocessable,
            e.message@ == message@,
    {
        ApiError { kind: ApiErrorKind::Unprocessable, message }
    }
}

} // verus!
