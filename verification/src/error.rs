//! The error taxonomy of the service: a closed set of error codes, each with
//! its numeric wire code, its HTTP status and its default message, and the
//! structured error value that handlers return.

use vstd::prelude::*;

verus! {

/// The closed taxonomy of outcomes a request can end in.
#[derive(Clone, Copy, Debug, PartialEq, Eq, Structural)]
pub enum ErrorCode {
    OK,
    InvalidRequest,
    Forbidden,
    InvalidToken,
    ExpiredToken,
    NotFound,
    UnkownError,
    DBError,
    TokenCreation,
    DataParsingError,
}

impl ErrorCode {
    /// The numeric code each variant is serialized as on the wire.
    pub open spec fn spec_code(self) -> u16 {
        match self {
            ErrorCode::OK => 2000,
            ErrorCode::InvalidRequest => 4000,
            ErrorCode::Forbidden => 4010,
            ErrorCode::InvalidToken => 4011,
            ErrorCode::ExpiredToken => 4012,
            ErrorCode::NotFound => 4040,
            ErrorCode::UnkownError => 5000,
            ErrorCode::DBError => 5001,
            ErrorCode::TokenCreation => 5002,
            ErrorCode::DataParsingError => 5003,
        }
    }

    pub fn code(&self) -> (r: u16)
        ensures
            r == self.spec_code(),
    {
        match self {
            ErrorCode::OK => 2000,
            ErrorCode::InvalidRequest => 4000,
            ErrorCode::Forbidden => 4010,
            ErrorCode::InvalidToken => 4011,
            ErrorCode::ExpiredToken => 4012,
            ErrorCode::NotFound => 4040,
            ErrorCode::UnkownError => 5000,
            ErrorCode::DBError => 5001,
            ErrorCode::TokenCreation => 5002,
            ErrorCode::DataParsingError => 5003,
        }
    }

    /// The HTTP status each variant maps to.
    pub open spec fn spec_http_status(self) -> u16 {
        match self {
            ErrorCode::OK => 200,
            ErrorCode::InvalidRequest => 400,
            ErrorCode::Forbidden => 401,
            ErrorCode::InvalidToken => 401,
            ErrorCode::ExpiredToken => 401,
            ErrorCode::NotFound => 404,
            ErrorCode::UnkownError => 500,
            ErrorCode::DBError => 500,
            ErrorCode::TokenCreation => 500,
            ErrorCode::DataParsingError => 500,
        }
    }

    /// The default human-readable message for each variant.
    pub open spec fn spec_message(self) -> Seq<char> {
        match self {
            ErrorCode::OK => "success"@,
            ErrorCode::InvalidRequest => "invalid request, please check request payload or headers."@,
            ErrorCode::Forbidden => "forbidden."@,
            ErrorCode::InvalidToken => "invalid token."@,
            ErrorCode::ExpiredToken => "token is expired."@,
            ErrorCode::NotFound => "resources does not exist."@,
            ErrorCode::UnkownError => "unknown error."@,
            ErrorCode::DBError => "DB error."@,
            ErrorCode::TokenCreation => "creates token fail."@,
            ErrorCode::DataParsingError => "data parsing error."@,
        }
    }

    /// The HTTP status and default message that this code is answered with.
    pub fn res(&self) -> (r: (u16, String))
        ensures
            r.0 == self.spec_http_status(),
            r.1@ == self.spec_message(),
    {
        match self {
            ErrorCode::InvalidRequest => (
                400,
                "invalid request, please check request payload or headers.".to_owned(),
            ),
            ErrorCode::Forbidden => (401, "forbidden.".to_owned()),
            ErrorCode::InvalidToken => (401, "invalid token.".to_owned()),
            ErrorCode::ExpiredToken => (401, "token is expired.".to_owned()),
            ErrorCode::NotFound => (404, "resources does not exist.".to_owned()),
            ErrorCode::UnkownError => (500, "unknown error.".to_owned()),
            ErrorCode::DBError => (500, "DB error.".to_owned()),
            ErrorCode::TokenCreation => (500, "creates token fail.".to_owned()),
            ErrorCode::DataParsingError => (500, "data parsing error.".to_owned()),
            ErrorCode::OK => (200, "success".to_owned()),
        }
    }
}

/// A structured error: a code from the taxonomy, an optional message that
/// overrides the code's default one, and an optional description of the
/// underlying failure.
#[derive(Debug)]
pub struct AppError {
    pub msg: Option<String>,
    pub code: ErrorCode,
    pub source: Option<String>,
}

impl AppError {
    /// Wraps an underlying failure's description, with an optional code
    /// (defaulting to `UnkownError`) and an optional message.
    pub fn from_err(err: String, code: Option<ErrorCode>, msg: Option<String>) -> (r: Self)
        ensures
            r.msg == msg,
            r.source == Some(err),
            r.code == (match code {
                Some(c) => c,
                None => ErrorCode::UnkownError,
            }),
    {
        Self {
            msg,
            source: Some(err),
            code: match code {
                Some(code) => code,
                _ => ErrorCode::UnkownError,
            },
        }
    }

    /// An error carrying only a message, with an optional code (defaulting to
    /// `UnkownError`).
    pub fn from_str(msg: String, code: Option<ErrorCode>) -> (r: Self)
        ensures
            r.msg == Some(msg),
            r.source is None,
            r.code == (match code {
                Some(c) => c,
                None => ErrorCode::UnkownError,
            }),
    {
        Self {
            msg: Some(msg),
            source: None,
            code: match code {
                Some(code) => code,
                _ => ErrorCode::UnkownError,
            },
        }
    }

    /// An error with an explicit code and an optional message.
    pub fn from_code(code: ErrorCode, msg: Option<String>) -> (r: Self)
        ensures
            r.msg == msg,
            r.source is None,
            r.code == code,
    {
        Self { msg, code, source: None }
    }
}

} // verus!
