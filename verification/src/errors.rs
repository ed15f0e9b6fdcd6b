use vstd::prelude::*;
use vstd::string::*;
use crate::text::{join2, join3, u64_text, u64_to_text};

verus! {

/// The error of every fallible operation of the library.
#[derive(Debug, Clone, PartialEq, Eq)]
pub enum AppError {
    Io(String),
    Db(String),
    Http { status: Option<u16>, message: String },
    NotFound,
    Invalid(String),
    Internal(String),
}

pub type AppResult<T> = Result<T, AppError>;

/// An error is worth retrying unless it is an HTTP response with a 4xx status
/// other than 408 (Request Timeout) and 429 (Too Many Requests).
pub open spec fn retryable(e: AppError) -> bool {
    match e {
        AppError::Http { status: Some(s), .. } => !(400 <= s < 500 && s != 408 && s != 429),
        _ => true,
    }
}

impl AppError {
    /// Returns false for HTTP responses that won't change on retry
    /// (4xx except 408 Request Timeout and 429 Too Many Requests).
    pub fn is_retryable(&self) -> (r: bool)
        ensures
            r == retryable(*self),
    {
        match self {
            AppError::Http { status: Some(s), .. } => !(*s >= 400 && *s < 500 && *s != 408 && *s != 429),
            _ => true,
        }
    }
}

/// How `{:?}` writes an HTTP status that may be missing.
pub open spec fn status_text(status: Option<u16>) -> Seq<char> {
    match status {
        Some(s) => "Some("@ + u64_text(s as u64) + ")"@,
        None => "None"@,
    }
}

/// The text of an error, as its `Display` writes it.
pub open spec fn error_text(e: AppError) -> Seq<char> {
    match e {
        AppError::Io(m) => "io: "@ + m@,
        AppError::Db(m) => "db: "@ + m@,
        AppError::Http { status, message } => "http "@ + status_text(status) + ": "@ + message@,
        AppError::NotFound => "not found"@,
        AppError::Invalid(m) => "invalid: "@ + m@,
        AppError::Internal(m) => "internal: "@ + m@,
    }
}

impl AppError {
    /// The text of the error: `io: {0}`, `db: {0}`, `http {status:?}: {message}`,
    /// `not found`, `invalid: {0}`, `internal: {0}`.
    pub fn to_string(&self) -> (r: String)
        ensures
            r@ == error_text(*self),
    {
        match self {
            AppError::Io(m) => join2("io: ", m.as_str()),
            AppError::Db(m) => join2("db: ", m.as_str()),
            AppError::Http { status, message } => {
                let st = match status {
                    Some(s) => {
                        let digits = u64_to_text(*s as u64);
                        join3("Some(", digits.as_str(), ")")
                    },
                    None => String::from_str("None"),
                };
                let head = join2("http ", st.as_str());
                join3(head.as_str(), ": ", message.as_str())
            },
            AppError::NotFound => String::from_str("not found"),
            AppError::Invalid(m) => join2("invalid: ", m.as_str()),
            AppError::Internal(m) => join2("internal: ", m.as_str()),
        }
    }
}

} // verus!
