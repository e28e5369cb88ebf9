//! The closed set of failures a payment can end in, and what each one shows
//! to the caller.

use vstd::prelude::*;

verus! {

/// Why a payment did not produce a response.
///
/// `DatabaseError` carries the store's own account of the failure. It is kept
/// for the operator's log and never shown to the caller.
#[derive(Debug, PartialEq, Eq)]
pub enum AppError {
    InternalServerError(String),
    BadRequest(String),
    DatabaseError(String),
    EnvironmentError(String),
    GatewayError(String),
}

/// An [`AppError`] with its text as a sequence of characters.
pub enum AppErrorView {
    InternalServerError(Seq<char>),
    BadRequest(Seq<char>),
    DatabaseError(Seq<char>),
    EnvironmentError(Seq<char>),
    GatewayError(Seq<char>),
}

impl View for AppError {
    type V = AppErrorView;

    open spec fn view(&self) -> AppErrorView {
        match self {
            AppError::InternalServerError(msg) => AppErrorView::InternalServerError(msg@),
            AppError::BadRequest(msg) => AppErrorView::BadRequest(msg@),
            AppError::DatabaseError(detail) => AppErrorView::DatabaseError(detail@),
            AppError::EnvironmentError(msg) => AppErrorView::EnvironmentError(msg@),
            AppError::GatewayError(msg) => AppErrorView::GatewayError(msg@),
        }
    }
}

/// What the caller is told when the store fails, whatever the store said.
pub open spec fn database_failure_message() -> Seq<char> {
    "Database operation failed."@
}

/// The text put in front of a transport failure's own description.
pub open spec fn gateway_failure_prefix() -> Seq<char> {
    "External gateway call failed: "@
}

impl AppErrorView {
    /// The transport status of this kind of failure: 400 for a request that
    /// failed validation, 502 for a failed call to the gateway, 500 for the
    /// rest.
    pub open spec fn status_code(self) -> int {
        match self {
            AppErrorView::BadRequest(_) => 400,
            AppErrorView::GatewayError(_) => 502,
            AppErrorView::InternalServerError(_) => 500,
            AppErrorView::DatabaseError(_) => 500,
            AppErrorView::EnvironmentError(_) => 500,
        }
    }

    /// The message shown to the caller: the error's own text, except for a
    /// store failure, whose detail is replaced by a fixed sentence.
    pub open spec fn public_message(self) -> Seq<char> {
        match self {
            AppErrorView::InternalServerError(msg) => msg,
            AppErrorView::BadRequest(msg) => msg,
            AppErrorView::DatabaseError(_) => database_failure_message(),
            AppErrorView::EnvironmentError(msg) => msg,
            AppErrorView::GatewayError(msg) => msg,
        }
    }

    /// The error response for this failure.
    pub open spec fn response(self) -> ErrorResponseView {
        ErrorResponseView { status: self.status_code(), error: self.public_message() }
    }
}

/// The status and body of an error response; the body is the object
/// `{"error": <error>}`.
#[derive(Debug, PartialEq, Eq)]
pub struct ErrorResponse {
    pub status: u16,
    pub error: String,
}

/// An [`ErrorResponse`] with its text as a sequence of characters.
pub struct ErrorResponseView {
    pub status: int,
    pub error: Seq<char>,
}

impl View for ErrorResponse {
    type V = ErrorResponseView;

    open spec fn view(&self) -> ErrorResponseView {
        ErrorResponseView { status: self.status as int, error: self.error@ }
    }
}

impl AppError {
    /// The transport status this failure maps to.
    pub fn status_code(&self) -> (code: u16)
        ensures
            code == self@.status_code(),
    {
        match self {
            AppError::BadRequest(_) => 400,
            AppError::GatewayError(_) => 502,
            AppError::InternalServerError(_) => 500,
            AppError::DatabaseError(_) => 500,
            AppError::EnvironmentError(_) => 500,
        }
    }

    /// Turns the failure into the response the caller receives. A store
    /// failure keeps its detail to itself.
    pub fn into_response(self) -> (response: ErrorResponse)
        ensures
            response@ == self@.response(),
    {
        let status: u16 = self.status_code();
        let error = match self {
            AppError::InternalServerError(msg) => msg,
            AppError::BadRequest(msg) => msg,
            AppError::DatabaseError(_) => "Database operation failed.".to_owned(),
            AppError::EnvironmentError(msg) => msg,
            AppError::GatewayError(msg) => msg,
        };
        ErrorResponse { status, error }
    }

    /// The failure for a store that could not write, with the store's own
    /// account of what went wrong.
    pub fn from_storage_failure(detail: String) -> (error: AppError)
        ensures
            error@ == AppErrorView::DatabaseError(detail@),
    {
        AppError::DatabaseError(detail)
    }

    /// The failure for a call to the gateway that did not get through, or
    /// that the gateway answered with an error status.
    pub fn from_transport_failure(detail: &str) -> (error: AppError)
        ensures
            error@ == AppErrorView::GatewayError(gateway_failure_prefix() + detail@),
    {
        let mut msg = "External gateway call failed: ".to_owned();
        msg.append(detail);
        AppError::GatewayError(msg)
    }
}

} // verus!
