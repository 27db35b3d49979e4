//! The error every layer reports, and the message form handed to the caller.

use vstd::prelude::*;

verus! {

/// What went wrong. Storage failures arrive here already rendered as text.
#[derive(Debug, Clone)]
pub enum AppError {
    /// A storage operation failed.
    Database(String),
    /// Applying the schema migrations failed.
    Migration(String),
    /// The named record does not exist.
    NotFound(&'static str),
    /// The input breaks a rule.
    Validation(String),
    /// The configuration is unusable.
    Config(String),
    /// Anything else.
    Internal(String),
}

/// The message of an error, as shown to the user.
pub open spec fn error_text(e: AppError) -> Seq<char> {
    match e {
        AppError::Database(m) => "database error: "@ + m@,
        AppError::Migration(m) => "migration error: "@ + m@,
        AppError::NotFound(what) => what@ + " not found"@,
        AppError::Validation(m) => "validation failed: "@ + m@,
        AppError::Config(m) => "configuration error: "@ + m@,
        AppError::Internal(m) => m@,
    }
}

impl AppError {
    /// The message of this error, as shown to the user.
    pub fn message(&self) -> (r: String)
        ensures
            r@ == error_text(*self),
    {
        match self {
            AppError::Database(m) => {
                let mut r = String::from_str("database error: ");
                r.append(m.as_str());
                r
            },
            AppError::Migration(m) => {
                let mut r = String::from_str("migration error: ");
                r.append(m.as_str());
                r
            },
            AppError::NotFound(what) => {
                let mut r = String::from_str(what);
                r.append(" not found");
                r
            },
            AppError::Validation(m) => {
                let mut r = String::from_str("validation failed: ");
                r.append(m.as_str());
                r
            },
            AppError::Config(m) => {
                let mut r = String::from_str("configuration error: ");
                r.append(m.as_str());
                r
            },
            AppError::Internal(m) => m.clone(),
        }
    }
}

/// The error as handed to the caller: a clean message.
#[derive(Debug)]
pub struct CommandError {
    pub message: String,
}

impl CommandError {
    /// The caller-facing form of `e`: its message.
    pub fn from_error(e: AppError) -> (r: Self)
        ensures
            r.message@ == error_text(e),
    {
        CommandError { message: e.message() }
    }
}

} // verus!
