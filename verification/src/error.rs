//! The error type that every operation of the library reports.
use crate::text::join3;
use vstd::prelude::*;

verus! {

#[derive(Debug, Clone, Copy, PartialEq, Eq, Structural)]
pub enum ErrorKind {
    InvalidInput,
    Authentication,
    Network,
    UnsupportedCommand,
    UnexpectedResponse,
}

#[derive(Debug, Clone, PartialEq, Eq)]
pub struct AppError {
    pub kind: ErrorKind,
    pub message: String,
}

pub type AppResult<T> = Result<T, AppError>;

/// What an [`AppError`] says.
pub ghost struct ErrorModel {
    pub kind: ErrorKind,
    pub message: Seq<char>,
}

impl View for AppError {
    type V = ErrorModel;

    open spec fn view(&self) -> ErrorModel {
        ErrorModel { kind: self.kind, message: self.message@ }
    }
}

/// The error of the given kind and message.
pub open spec fn error_model(kind: ErrorKind, message: Seq<char>) -> ErrorModel {
    ErrorModel { kind, message }
}

/// A result with its value and its error taken by their views.
pub open spec fn result_model<T: View>(r: AppResult<T>) -> Result<T::V, ErrorModel> {
    match r {
        Ok(value) => Ok(value@),
        Err(error) => Err(error@),
    }
}

/// The name under which an error kind is printed.
pub open spec fn kind_name(kind: ErrorKind) -> Seq<char> {
    match kind {
        ErrorKind::InvalidInput => "InvalidInput"@,
        ErrorKind::Authentication => "Authentication"@,
        ErrorKind::Network => "Network"@,
        ErrorKind::UnsupportedCommand => "UnsupportedCommand"@,
        ErrorKind::UnexpectedResponse => "UnexpectedResponse"@,
    }
}

impl ErrorKind {
    pub fn name(self) -> (r: &'static str)
        ensures
            r@ == kind_name(self),
    {
        match self {
            ErrorKind::InvalidInput => "InvalidInput",
            ErrorKind::Authentication => "Authentication",
            ErrorKind::Network => "Network",
            ErrorKind::UnsupportedCommand => "UnsupportedCommand",
            ErrorKind::UnexpectedResponse => "UnexpectedResponse",
        }
    }
}

impl AppError {
    pub fn new(kind: ErrorKind, message: &str) -> (r: Self)
        ensures
            r@ == error_model(kind, message@),
    {
        AppError { kind, message: message.to_owned() }
    }

    /// An error whose message has already been put together.
    pub fn with_message(kind: ErrorKind, message: String) -> (r: Self)
        ensures
            r@ == error_model(kind, message@),
    {
        AppError { kind, message }
    }

    /// A copy of the error.
    pub fn duplicate(&self) -> (r: Self)
        ensures
            r@ == self@,
    {
        AppError { kind: self.kind, message: self.message.clone() }
    }

    /// The error as it is shown to a user.
    pub fn describe(&self) -> (r: String)
        ensures
            r@ == kind_name(self.kind) + ": "@ + self.message@,
    {
        join3(self.kind.name(), ": ", self.message.as_str())
    }
}

} // verus!
