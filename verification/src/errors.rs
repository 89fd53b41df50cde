//! The library's error type: a kind, which fixes the HTTP status, and the
//! message shown to the client.
use vstd::prelude::*;

verus! {

/// The kinds of failure the API reports.
#[derive(Debug, Clone, Copy, PartialEq, Eq, Structural)]
pub enum ErrorKind {
    BadRequest,
    Unauthorized,
    Forbidden,
    NotFound,
    Conflict,
    Internal,
}

/// An error answered to the client: its kind and its message.
#[derive(Debug, Clone, PartialEq, Eq)]
pub struct AppError {
    pub kind: ErrorKind,
    pub message: String,
}

/// Result type of the library's fallible operations.
pub type AppResult<T> = Result<T, AppError>;

/// The HTTP status code that answers an error of kind `k`.
pub open spec fn status_of(k: ErrorKind) -> u16 {
    match k {
        ErrorKind::BadRequest => 400,
        ErrorKind::Unauthorized => 401,
        ErrorKind::Forbidden => 403,
        ErrorKind::NotFound => 404,
        ErrorKind::Conflict => 409,
        ErrorKind::Internal => 500,
    }
}

impl AppError {
    /// Whether this error has kind `k` and message `msg`.
    pub open spec fn is(self, k: ErrorKind, msg: Seq<char>) -> bool {
        self.kind == k && self.message@ == msg
    }

    /// An error of kind `kind` with the given message.
    pub fn new(kind: ErrorKind, message: &str) -> (e: AppError)
        ensures
            e.is(kind, message@),
    {
        AppError { kind, message: crate::text::owned(message) }
    }

    /// The HTTP status code of this error.
    pub fn status_code(&self) -> (code: u16)
        ensures
            code == status_of(self.kind),
    {
        match self.kind {
            ErrorKind::BadRequest => 400,
            ErrorKind::Unauthorized => 401,
            ErrorKind::Forbidden => 403,
            ErrorKind::NotFound => 404,
            ErrorKind::Conflict => 409,
            ErrorKind::Internal => 500,
        }
    }
}

} // verus!
