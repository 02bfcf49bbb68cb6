//! The library's error type and how each kind of error is reported.
use vstd::prelude::*;
use crate::text::{concat, owned};

verus! {

#[verifier::external_type_specification]
#[verifier::external_body]
pub struct ExSqlxError(sqlx::Error);

#[verifier::external_type_specification]
#[verifier::external_body]
pub struct ExReqwestError(reqwest::Error);

#[verifier::external_type_specification]
#[verifier::external_body]
pub struct ExIoError(std::io::Error);

#[verifier::external_type_specification]
#[verifier::external_body]
pub struct ExJsonError(serde_json::Error);

#[derive(Debug)]
pub enum AppError {
    Database(sqlx::Error),
    Http(reqwest::Error),
    Config(String),
    Io(std::io::Error),
    Json(serde_json::Error),
    Upstream(String),
    InvalidData(String),
    NotFound(String),
    TooManyRequests(String),
}

/// The text a client sees for an internal error.
pub open spec fn internal_error_text() -> Seq<char> {
    "An internal error occurred"@
}

/// Renders a database error (`Display` of `sqlx::Error`).
#[verifier::external_body]
fn database_error_text(e: &sqlx::Error) -> String {
    e.to_string()
}

/// Renders an HTTP client error (`Display` of `reqwest::Error`).
#[verifier::external_body]
fn http_error_text(e: &reqwest::Error) -> String {
    e.to_string()
}

/// Renders an I/O error (`Display` of `std::io::Error`).
#[verifier::external_body]
fn io_error_text(e: &std::io::Error) -> String {
    e.to_string()
}

/// Renders a JSON error (`Display` of `serde_json::Error`).
#[verifier::external_body]
fn json_error_text(e: &serde_json::Error) -> String {
    e.to_string()
}

/// What `reqwest::Error::without_url` makes of an error: the same error
/// with its request URL dropped. It depends on the error alone.
pub uninterp spec fn error_without_url(e: reqwest::Error) -> reqwest::Error;

/// `reqwest::Error::without_url`: the same error with the request URL
/// dropped, so that secrets carried in a URL never reach a message. The
/// contract names the result; what is inside it stays opaque here.
#[verifier::external_body]
fn strip_url(e: reqwest::Error) -> (r: reqwest::Error)
    ensures
        r == error_without_url(e),
{
    e.without_url()
}

impl AppError {
    /// Errors whose detail stays on the server (database, HTTP, I/O, JSON).
    pub open spec fn is_internal(&self) -> bool {
        ||| self is Database
        ||| self is Http
        ||| self is Io
        ||| self is Json
    }

    /// The message a client may see.
    pub open spec fn spec_client_message(&self) -> Seq<char> {
        match self {
            AppError::NotFound(m) => m@,
            AppError::InvalidData(m) => m@,
            AppError::Config(m) => m@,
            AppError::TooManyRequests(m) => m@,
            AppError::Upstream(m) => m@,
            _ => internal_error_text(),
        }
    }

    /// The HTTP status an error is answered with.
    pub open spec fn spec_status_code(&self) -> u16 {
        match self {
            AppError::NotFound(_) => 404,
            AppError::InvalidData(_) => 400,
            AppError::Upstream(_) => 502,
            AppError::TooManyRequests(_) => 429,
            _ => 500,
        }
    }

    /// The leading words of the error's rendering.
    pub open spec fn display_prefix(&self) -> Seq<char> {
        match self {
            AppError::Database(_) => "Database error: "@,
            AppError::Http(_) => "HTTP request error: "@,
            AppError::Config(_) => "Configuration error: "@,
            AppError::Io(_) => "IO error: "@,
            AppError::Json(_) => "JSON parsing error: "@,
            AppError::Upstream(_) => "Upstream service unavailable: "@,
            AppError::InvalidData(_) => "Invalid data: "@,
            AppError::NotFound(_) => "Not found: "@,
            AppError::TooManyRequests(_) => "Too many requests: "@,
        }
    }

    /// A message safe to hand back to clients: user-facing variants keep
    /// their text, internal ones collapse to a generic sentence.
    pub fn client_message(&self) -> (r: String)
        ensures
            r@ == self.spec_client_message(),
    {
        match self {
            AppError::NotFound(msg) => msg.clone(),
            AppError::InvalidData(msg) => msg.clone(),
            AppError::Config(msg) => msg.clone(),
            AppError::TooManyRequests(msg) => msg.clone(),
            AppError::Upstream(msg) => msg.clone(),
            _ => owned("An internal error occurred"),
        }
    }

    /// The HTTP status code for this error.
    pub fn status_code(&self) -> (r: u16)
        ensures
            r == self.spec_status_code(),
    {
        match self {
            AppError::NotFound(_) => 404,
            AppError::InvalidData(_) => 400,
            AppError::Upstream(_) => 502,
            AppError::TooManyRequests(_) => 429,
            _ => 500,
        }
    }

    /// The full rendering of the error: a fixed prefix naming the kind,
    /// followed by the message or the inner error's own rendering.
    pub fn message(&self) -> (r: String)
        ensures
            r@.len() >= self.display_prefix().len(),
            r@.subrange(0, self.display_prefix().len() as int) == self.display_prefix(),
            !self.is_internal() ==> r@ == self.display_prefix() + self.spec_client_message(),
    {
        let r = match self {
            AppError::Database(e) => concat("Database error: ", database_error_text(e).as_str()),
            AppError::Http(e) => concat("HTTP request error: ", http_error_text(e).as_str()),
            AppError::Config(m) => concat("Configuration error: ", m.as_str()),
            AppError::Io(e) => concat("IO error: ", io_error_text(e).as_str()),
            AppError::Json(e) => concat("JSON parsing error: ", json_error_text(e).as_str()),
            AppError::Upstream(m) => concat("Upstream service unavailable: ", m.as_str()),
            AppError::InvalidData(m) => concat("Invalid data: ", m.as_str()),
            AppError::NotFound(m) => concat("Not found: ", m.as_str()),
            AppError::TooManyRequests(m) => concat("Too many requests: ", m.as_str()),
        };
        assert(r@.subrange(0, self.display_prefix().len() as int) =~= self.display_prefix());
        r
    }

    /// An HTTP client error with its request URL stripped first: outbound
    /// URLs carry the TMDB key, which must never reach an error message.
    pub fn from_http(err: reqwest::Error) -> (r: AppError)
        ensures
            r == AppError::Http(error_without_url(err)),
    {
        AppError::Http(strip_url(err))
    }
}

impl From<sqlx::Error> for AppError {
    fn from(err: sqlx::Error) -> (r: Self) {
        AppError::Database(err)
    }
}

impl vstd::std_specs::convert::FromSpecImpl<sqlx::Error> for AppError {
    open spec fn obeys_from_spec() -> bool {
        true
    }

    open spec fn from_spec(v: sqlx::Error) -> Self {
        AppError::Database(v)
    }
}

impl From<std::io::Error> for AppError {
    fn from(err: std::io::Error) -> (r: Self) {
        AppError::Io(err)
    }
}

impl vstd::std_specs::convert::FromSpecImpl<std::io::Error> for AppError {
    open spec fn obeys_from_spec() -> bool {
        true
    }

    open spec fn from_spec(v: std::io::Error) -> Self {
        AppError::Io(v)
    }
}

impl From<serde_json::Error> for AppError {
    fn from(err: serde_json::Error) -> (r: Self) {
        AppError::Json(err)
    }
}

impl vstd::std_specs::convert::FromSpecImpl<serde_json::Error> for AppError {
    open spec fn obeys_from_spec() -> bool {
        true
    }

    open spec fn from_spec(v: serde_json::Error) -> Self {
        AppError::Json(v)
    }
}

/// Internal errors (database, HTTP, I/O, JSON) reach clients only as the
/// generic sentence and a 500; every other kind keeps its own text.
pub proof fn internal_errors_stay_private(e: AppError)
    ensures
        e.is_internal() ==> e.spec_client_message() == internal_error_text()
            && e.spec_status_code() == 500,
        !e.is_internal() ==> e.spec_client_message() == match e {
            AppError::Config(m) => m@,
            AppError::Upstream(m) => m@,
            AppError::InvalidData(m) => m@,
            AppError::NotFound(m) => m@,
            AppError::TooManyRequests(m) => m@,
            _ => Seq::empty(),
        },
{
}

} // verus!
