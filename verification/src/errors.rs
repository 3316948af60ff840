//! Errors of the payment service and how each is answered over HTTP.

use vstd::prelude::*;

use crate::text::{join2, str_eq};

verus! {

/// Errors encountered while reading startup configuration.
#[derive(Debug)]
pub enum ConfigError {
    InvalidServerPort,
    InvalidServerAddress,
    MissingDatabaseUrl,
    MissingRedisUrl,
    InvalidPositiveInteger(&'static str),
}

/// The human-readable text of a configuration error.
pub open spec fn config_error_text(error: ConfigError) -> Seq<char> {
    match error {
        ConfigError::InvalidServerPort => "SERVER_PORT must be a valid u16"@,
        ConfigError::InvalidServerAddress =>
            "SERVER_HOST and SERVER_PORT must form a valid socket address"@,
        ConfigError::MissingDatabaseUrl => "DATABASE_URL must be set"@,
        ConfigError::MissingRedisUrl => "REDIS_URL must be set"@,
        ConfigError::InvalidPositiveInteger(variable) => variable@
            + " must be a positive integer"@,
    }
}

impl ConfigError {
    /// The message shown to the operator.
    pub fn message(&self) -> (text: String)
        ensures
            text@ == config_error_text(*self),
    {
        match self {
            ConfigError::InvalidServerPort => "SERVER_PORT must be a valid u16".to_owned(),
            ConfigError::InvalidServerAddress => {
                "SERVER_HOST and SERVER_PORT must form a valid socket address".to_owned()
            },
            ConfigError::MissingDatabaseUrl => "DATABASE_URL must be set".to_owned(),
            ConfigError::MissingRedisUrl => "REDIS_URL must be set".to_owned(),
            ConfigError::InvalidPositiveInteger(variable) => join2(
                variable,
                " must be a positive integer",
            ),
        }
    }
}

/// An application failure that can be safely answered as an HTTP response.
#[derive(Debug)]
pub enum AppError {
    BadRequest(String),
    NotFound(String),
    Conflict(String),
    Internal,
}

/// `error` is a bad request whose message is `text`.
pub open spec fn is_bad_request(error: AppError, text: Seq<char>) -> bool {
    error matches AppError::BadRequest(message) && message@ == text
}

/// `error` reports a missing resource with the message `text`.
pub open spec fn is_not_found(error: AppError, text: Seq<char>) -> bool {
    error matches AppError::NotFound(message) && message@ == text
}

/// `error` reports a conflict with the message `text`.
pub open spec fn is_conflict(error: AppError, text: Seq<char>) -> bool {
    error matches AppError::Conflict(message) && message@ == text
}

impl AppError {
    pub fn bad_request(message: &str) -> (error: AppError)
        ensures
            is_bad_request(error, message@),
    {
        AppError::BadRequest(message.to_owned())
    }

    pub fn not_found(message: &str) -> (error: AppError)
        ensures
            is_not_found(error, message@),
    {
        AppError::NotFound(message.to_owned())
    }

    pub fn conflict(message: &str) -> (error: AppError)
        ensures
            is_conflict(error, message@),
    {
        AppError::Conflict(message.to_owned())
    }

    /// The HTTP status code and JSON body that answer this error.
    pub fn into_error_response(self) -> (response: (u16, ErrorResponse))
        ensures
            response.0 == http_status(self),
            response.1.error@ == error_tag(self),
            response.1.message@ == error_message(self),
    {
        match self {
            AppError::BadRequest(message) => (400, ErrorResponse { error: "bad_request", message }),
            AppError::NotFound(message) => (404, ErrorResponse { error: "not_found", message }),
            AppError::Conflict(message) => (409, ErrorResponse { error: "conflict", message }),
            AppError::Internal => (
                500,
                ErrorResponse {
                    error: "internal_server_error",
                    message: "an unexpected error occurred".to_owned(),
                },
            ),
        }
    }
}

/// The HTTP status code that answers an error.
pub open spec fn http_status(error: AppError) -> u16 {
    match error {
        AppError::BadRequest(_) => 400,
        AppError::NotFound(_) => 404,
        AppError::Conflict(_) => 409,
        AppError::Internal => 500,
    }
}

/// Each kind of error has its own status code: 400 for a bad request, 404
/// for a missing resource, 409 for a conflict and 500 for an internal error,
/// whose message never shows the internal details.
pub proof fn lemma_error_status_codes(error: AppError)
    ensures
        error is BadRequest <==> http_status(error) == 400,
        error is NotFound <==> http_status(error) == 404,
        error is Conflict <==> http_status(error) == 409,
        error is Internal <==> http_status(error) == 500,
        error is Internal ==> error_message(error) == "an unexpected error occurred"@,
        !(error is Internal) ==> (error matches AppError::BadRequest(m) && error_message(error)
            == m@) || (error matches AppError::NotFound(m) && error_message(error) == m@) || (
        error matches AppError::Conflict(m) && error_message(error) == m@),
{
}

/// The machine-readable tag in the body that answers an error.
pub open spec fn error_tag(error: AppError) -> Seq<char> {
    match error {
        AppError::BadRequest(_) => "bad_request"@,
        AppError::NotFound(_) => "not_found"@,
        AppError::Conflict(_) => "conflict"@,
        AppError::Internal => "internal_server_error"@,
    }
}

/// The message in the body that answers an error; internal details are
/// never shown.
pub open spec fn error_message(error: AppError) -> Seq<char> {
    match error {
        AppError::BadRequest(message) => message@,
        AppError::NotFound(message) => message@,
        AppError::Conflict(message) => message@,
        AppError::Internal => "an unexpected error occurred"@,
    }
}

/// The JSON body of an error response.
#[derive(Debug)]
pub struct ErrorResponse {
    pub error: &'static str,
    pub message: String,
}

/// A failed database operation, described by the SQLSTATE code that the
/// database reported for it, if any.
#[derive(Debug)]
pub struct DatabaseFailure {
    pub code: Option<String>,
}

/// The SQLSTATE code of a serialization failure under `SERIALIZABLE`.
pub open spec fn is_serialization_code(code: Option<String>) -> bool {
    code matches Some(c) && c@ == "40001"@
}

impl DatabaseFailure {
    /// Whether the database aborted the transaction to keep it
    /// serializable; such a transaction may be retried from scratch.
    pub fn is_serialization_failure(&self) -> (retryable: bool)
        ensures
            retryable == is_serialization_code(self.code),
    {
        match &self.code {
            Some(code) => str_eq(code.as_str(), "40001"),
            None => false,
        }
    }
}

impl From<DatabaseFailure> for AppError {
    /// A database failure is answered as an internal error, without detail.
    fn from(failure: DatabaseFailure) -> (error: AppError)
        ensures
            error == AppError::Internal,
    {
        AppError::Internal
    }
}

impl vstd::std_specs::convert::FromSpecImpl<DatabaseFailure> for AppError {
    open spec fn obeys_from_spec() -> bool {
        true
    }

    open spec fn from_spec(failure: DatabaseFailure) -> AppError {
        AppError::Internal
    }
}

} // verus!
