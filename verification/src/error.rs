//! Errors answered by the HTTP API.
use vstd::prelude::*;

verus! {

/// The class of an API error; each class is answered with one HTTP status.
#[derive(Clone, Copy, Debug, PartialEq, Eq, Structural)]
pub enum ErrorKind {
    BadRequest,
    Unauthorized,
    Conflict,
    Internal,
}

/// The HTTP status code of an error class.
pub open spec fn spec_status(kind: ErrorKind) -> u16 {
    match kind {
        ErrorKind::BadRequest => 400,
        ErrorKind::Unauthorized => 401,
        ErrorKind::Conflict => 409,
        ErrorKind::Internal => 500,
    }
}

impl ErrorKind {
    /// The HTTP status code answered for this class of error.
    pub fn status(&self) -> (code: u16)
        ensures
            code == spec_status(*self),
    {
        match self {
            ErrorKind::BadRequest => 400,
            ErrorKind::Unauthorized => 401,
            ErrorKind::Conflict => 409,
            ErrorKind::Internal => 500,
        }
    }
}

/// An error answered by the API: its class, a machine-readable code
/// (only bad requests carry one) and a human-readable message.
#[derive(Debug)]
pub struct ApiError {
    pub kind: ErrorKind,
    pub code: Option<String>,
    pub message: String,
}

/// The mathematical value of an [`ApiError`].
pub struct ApiErrorView {
    pub kind: ErrorKind,
    pub code: Option<Seq<char>>,
    pub message: Seq<char>,
}

impl View for ApiError {
    type V = ApiErrorView;

    open spec fn view(&self) -> ApiErrorView {
        ApiErrorView {
            kind: self.kind,
            code: match self.code {
                Some(c) => Some(c@),
                None => None,
            },
            message: self.message@,
        }
    }
}

/// A bad request with the given code and message.
pub open spec fn bad_request_view(code: Seq<char>, message: Seq<char>) -> ApiErrorView {
    ApiErrorView { kind: ErrorKind::BadRequest, code: Some(code), message }
}

/// An authentication failure with the given message.
pub open spec fn unauthorized_view(message: Seq<char>) -> ApiErrorView {
    ApiErrorView { kind: ErrorKind::Unauthorized, code: None, message }
}

/// A conflict with the stored state, with the given message.
pub open spec fn conflict_view(message: Seq<char>) -> ApiErrorView {
    ApiErrorView { kind: ErrorKind::Conflict, code: None, message }
}

/// A failure inside the server, with the given message.
pub open spec fn internal_view(message: Seq<char>) -> ApiErrorView {
    ApiErrorView { kind: ErrorKind::Internal, code: None, message }
}

impl ApiError {
    /// A bad request (400) with a machine-readable code and a message.
    pub fn bad_request(code: &str, message: &str) -> (e: ApiError)
        ensures
            e@ == bad_request_view(code@, message@),
    {
        ApiError { kind: ErrorKind::BadRequest, code: Some(code.to_owned()), message: message.to_owned() }
    }

    /// An authentication failure (401) with a message.
    pub fn unauthorized(message: &str) -> (e: ApiError)
        ensures
            e@ == unauthorized_view(message@),
    {
        ApiError { kind: ErrorKind::Unauthorized, code: None, message: message.to_owned() }
    }

    /// A conflict with the stored state (409) with a message.
    pub fn conflict(message: &str) -> (e: ApiError)
        ensures
            e@ == conflict_view(message@),
    {
        ApiError { kind: ErrorKind::Conflict, code: None, message: message.to_owned() }
    }

    /// A failure inside the server (500) with a message.
    pub fn internal(message: &str) -> (e: ApiError)
        ensures
            e@ == internal_view(message@),
    {
        ApiError { kind: ErrorKind::Internal, code: None, message: message.to_owned() }
    }

    /// A failure of the database, answered as an internal error (500) that
    /// carries the database's description of it.
    pub fn database(message: String) -> (e: ApiError)
        ensures
            e@ == internal_view(message@),
    {
        ApiError { kind: ErrorKind::Internal, code: None, message }
    }

    /// The HTTP status code answered for this error.
    pub fn status(&self) -> (code: u16)
        ensures
            code == spec_status(self.kind),
    {
        self.kind.status()
    }
}

} // verus!
