//! The errors that handlers report, with the HTTP status, the error code and
//! the message that each is answered with.

use vstd::prelude::*;
use vstd::string::StringExecFns;

use crate::response::ResponseErrorJson;

verus! {

/// The HTTP status line text of a status code, as `http::StatusCode`
/// displays it: the number, a space and the canonical reason phrase.
pub uninterp spec fn http_status_line(code: u16) -> Seq<char>;

/// Calls `http::StatusCode::from_u16`, which accepts exactly 100..=999, and
/// displays the status code.  Besides naming the result, the contract states
/// the lines of the four codes that this library answers with, as the
/// crate's table of reason phrases gives them.
#[verifier::external_body]
fn status_line(code: u16) -> (res: String)
    requires
        100 <= code <= 999,
    ensures
        res@ == http_status_line(code),
        code == 401 ==> res@ == "401 Unauthorized"@,
        code == 403 ==> res@ == "403 Forbidden"@,
        code == 404 ==> res@ == "404 Not Found"@,
        code == 500 ==> res@ == "500 Internal Server Error"@,
{
    http::StatusCode::from_u16(code).unwrap().to_string()
}

/// The kinds of failure that a handler raises on purpose.
#[derive(Debug, Clone, Copy, PartialEq, Eq, Structural)]
pub enum ServerExceptionCode {
    /// The request carries no valid session.
    Unauthorized,
    /// The session lacks a permission.
    Forbidden,
    /// Something that should exist does not.
    NotFound,
    /// Anything else.
    InternalServerError,
}

impl ServerExceptionCode {
    /// The snake_case name of the code.
    pub open spec fn spec_text(self) -> Seq<char> {
        match self {
            ServerExceptionCode::Unauthorized => "unauthorized"@,
            ServerExceptionCode::Forbidden => "forbidden"@,
            ServerExceptionCode::NotFound => "not_found"@,
            ServerExceptionCode::InternalServerError => "internal_server_error"@,
        }
    }

    /// The HTTP status that the code is answered with.
    pub open spec fn spec_status(self) -> u16 {
        match self {
            ServerExceptionCode::Unauthorized => 401,
            ServerExceptionCode::Forbidden => 403,
            ServerExceptionCode::NotFound => 404,
            ServerExceptionCode::InternalServerError => 500,
        }
    }

    /// The snake_case name of the code.
    pub fn to_text(&self) -> (res: String)
        ensures
            res@ == self.spec_text(),
    {
        match self {
            ServerExceptionCode::Unauthorized => "unauthorized".to_owned(),
            ServerExceptionCode::Forbidden => "forbidden".to_owned(),
            ServerExceptionCode::NotFound => "not_found".to_owned(),
            ServerExceptionCode::InternalServerError => "internal_server_error".to_owned(),
        }
    }

    /// The HTTP status that the code is answered with.
    pub fn status(&self) -> (res: u16)
        ensures
            res == self.spec_status(),
    {
        match self {
            ServerExceptionCode::Unauthorized => 401,
            ServerExceptionCode::Forbidden => 403,
            ServerExceptionCode::NotFound => 404,
            ServerExceptionCode::InternalServerError => 500,
        }
    }
}

/// A failure raised on purpose, with an optional message for the log.
#[derive(Debug)]
pub struct ServerException {
    code: ServerExceptionCode,
    message: Option<String>,
}

impl ServerException {
    /// The code of the exception.
    pub closed spec fn spec_code(&self) -> ServerExceptionCode {
        self.code
    }

    /// The message of the exception, if one was given.
    pub closed spec fn spec_message(&self) -> Option<Seq<char>> {
        match self.message {
            Some(m) => Some(m@),
            None => None,
        }
    }

    /// An exception with the code and no message.
    pub fn new(code: ServerExceptionCode) -> (res: ServerException)
        ensures
            res.spec_code() == code,
            res.spec_message() is None,
    {
        ServerException { code, message: None }
    }

    /// The same exception with the message.
    pub fn message(self, message: &str) -> (res: ServerException)
        ensures
            res.spec_code() == self.spec_code(),
            res.spec_message() == Some(message@),
    {
        ServerException { code: self.code, message: Some(message.to_owned()) }
    }

    /// The code of the exception.
    pub fn code(&self) -> (res: ServerExceptionCode)
        ensures
            res == self.spec_code(),
    {
        self.code
    }

    /// The message of the exception, if one was given.
    pub fn message_text(&self) -> (res: Option<&String>)
        ensures
            match res {
                Some(m) => self.spec_message() == Some(m@),
                None => self.spec_message() is None,
            },
    {
        match &self.message {
            Some(m) => Some(m),
            None => None,
        }
    }

    /// How the exception displays: the name of its code.
    pub fn to_text(&self) -> (res: String)
        ensures
            res@ == self.spec_code().spec_text(),
    {
        self.code.to_text()
    }
}

/// An error of a handler.  Errors of other components are held by their
/// message.
#[derive(Debug)]
pub enum ServerError {
    /// A failure raised on purpose.
    Exception(ServerException),
    /// An error of the application services.
    App(String),
    /// A database error.
    Db(String),
    /// An error of the SQL driver.
    Sqlx(String),
    /// A configuration error.
    Config(String),
    /// Any other error.
    Anyhow(String),
}

impl ServerError {
    /// The HTTP status of the error: that of the code for an exception,
    /// 500 for everything else.
    pub open spec fn spec_status(&self) -> u16 {
        match self {
            ServerError::Exception(e) => e.spec_code().spec_status(),
            _ => 500,
        }
    }

    /// The error code of the error: the code's name for an exception, the
    /// HTTP status line for everything else.
    pub open spec fn spec_code_text(&self) -> Seq<char> {
        match self {
            ServerError::Exception(e) => e.spec_code().spec_text(),
            _ => http_status_line(self.spec_status()),
        }
    }

    /// How the error displays: a prefix for its kind and the inner message.
    pub open spec fn spec_text(&self) -> Seq<char> {
        match self {
            ServerError::Exception(e) => "Exception: "@ + e.spec_code().spec_text(),
            ServerError::App(m) => "App error: "@ + m@,
            ServerError::Db(m) => "Database error: "@ + m@,
            ServerError::Sqlx(m) => "Sqlx error: "@ + m@,
            ServerError::Config(m) => "Config error: "@ + m@,
            ServerError::Anyhow(m) => "Anyhow error: "@ + m@,
        }
    }

    /// An exception error with the code and no message.
    pub fn from_code(code: ServerExceptionCode) -> (res: ServerError)
        ensures
            res matches ServerError::Exception(e) && e.spec_code() == code && e.spec_message() is None,
    {
        ServerError::Exception(ServerException::new(code))
    }

    /// The error of an exception.
    pub fn from_exception(exception: ServerException) -> (res: ServerError)
        ensures
            res == ServerError::Exception(exception),
    {
        ServerError::Exception(exception)
    }

    /// An error with a plain message.
    pub fn from_message(value: &str) -> (res: ServerError)
        ensures
            res matches ServerError::Anyhow(m) && m@ == value@,
    {
        ServerError::Anyhow(value.to_owned())
    }

    /// The HTTP status of the error.
    pub fn status(&self) -> (res: u16)
        ensures
            res == self.spec_status(),
    {
        match self {
            ServerError::Exception(e) => e.code().status(),
            _ => 500,
        }
    }

    /// The error code of the error.
    pub fn code(&self) -> (res: String)
        ensures
            res@ == self.spec_code_text(),
            !(self is Exception) ==> res@ == "500 Internal Server Error"@,
    {
        match self {
            ServerError::Exception(e) => e.code().to_text(),
            _ => status_line(self.status()),
        }
    }

    /// How the error displays.
    pub fn to_text(&self) -> (res: String)
        ensures
            res@ == self.spec_text(),
    {
        let (prefix, inner) = match self {
            ServerError::Exception(e) => ("Exception: ", e.to_text()),
            ServerError::App(m) => ("App error: ", m.clone()),
            ServerError::Db(m) => ("Database error: ", m.clone()),
            ServerError::Sqlx(m) => ("Sqlx error: ", m.clone()),
            ServerError::Config(m) => ("Config error: ", m.clone()),
            ServerError::Anyhow(m) => ("Anyhow error: ", m.clone()),
        };
        let mut res = String::new();
        res.append(prefix);
        res.append(inner.as_str());
        res
    }

    /// The status and the body that the error is answered with.
    pub fn into_response_parts(&self) -> (res: (u16, ResponseErrorJson))
        ensures
            res.0 == self.spec_status(),
            res.1.spec_code() == self.spec_code_text(),
            res.1.spec_message() == self.spec_text(),
    {
        (self.status(), ResponseErrorJson::new(self.code(), self.to_text()))
    }
}

} // verus!

verus! {

/// Every error is answered with an error status: an exception with the
/// status of its code (401, 403, 404 or 500) and the code's name, and every
/// other error with 500 and the code that names that status.
pub proof fn law_errors_answer_with_error_status(e: ServerError)
    ensures
        e.spec_status() >= 400,
        !(e is Exception) ==> e.spec_status() == 500 && e.spec_code_text() == http_status_line(500),
        e matches ServerError::Exception(x) ==> (x.spec_code() == ServerExceptionCode::Unauthorized
            ==> e.spec_status() == 401) && (x.spec_code() == ServerExceptionCode::Forbidden
            ==> e.spec_status() == 403) && (x.spec_code() == ServerExceptionCode::NotFound
            ==> e.spec_status() == 404) && (x.spec_code() == ServerExceptionCode::InternalServerError
            ==> e.spec_status() == 500) && e.spec_code_text() == x.spec_code().spec_text(),
{
}

} // verus!
