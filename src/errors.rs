//! The closed set of failures that every fallible operation reports.

use vstd::prelude::*;
use crate::text::{decimal, decimal_text};

verus! {

/// A failure, with the context that the site where it arose knows.
#[derive(Debug, Clone, PartialEq)]
pub enum AppError {
    Api { status: u32, message: String },
    Network { message: String },
    Validation { field: String, message: String },
    Storage { message: String },
    Serialization { message: String },
    Unknown { message: String },
}

/// What an [`AppError`] says, with text as character sequences.
pub enum ErrorModel {
    Api { status: u32, message: Seq<char> },
    Network { message: Seq<char> },
    Validation { field: Seq<char>, message: Seq<char> },
    Storage { message: Seq<char> },
    Serialization { message: Seq<char> },
    Unknown { message: Seq<char> },
}

impl View for AppError {
    type V = ErrorModel;

    open spec fn view(&self) -> ErrorModel {
        match self {
            AppError::Api { status, message } => ErrorModel::Api { status: *status, message: message@ },
            AppError::Network { message } => ErrorModel::Network { message: message@ },
            AppError::Validation { field, message } => ErrorModel::Validation {
                field: field@,
                message: message@,
            },
            AppError::Storage { message } => ErrorModel::Storage { message: message@ },
            AppError::Serialization { message } => ErrorModel::Serialization { message: message@ },
            AppError::Unknown { message } => ErrorModel::Unknown { message: message@ },
        }
    }
}

/// How serious a failure is, for presentation.
#[derive(Debug, Clone, Copy, PartialEq, Eq, Structural)]
pub enum ErrorSeverity {
    Info,
    Warning,
    Error,
    Critical,
}

/// The fixed rendering of each kind of failure.
pub open spec fn error_text(e: ErrorModel) -> Seq<char> {
    match e {
        ErrorModel::Api { status, message } => "API Error ("@ + decimal(status as nat) + "): "@
            + message,
        ErrorModel::Network { message } => "Network Error: "@ + message,
        ErrorModel::Validation { field, message } => "Validation Error on "@ + field + ": "@
            + message,
        ErrorModel::Storage { message } => "Storage Error: "@ + message,
        ErrorModel::Serialization { message } => "Serialization Error: "@ + message,
        ErrorModel::Unknown { message } => "Unknown Error: "@ + message,
    }
}

/// The severity that each kind of failure is given.
pub open spec fn severity_of(e: ErrorModel) -> ErrorSeverity {
    match e {
        ErrorModel::Api { status, .. } => if status >= 500 {
            ErrorSeverity::Critical
        } else {
            ErrorSeverity::Warning
        },
        ErrorModel::Network { .. } => ErrorSeverity::Warning,
        ErrorModel::Validation { .. } => ErrorSeverity::Info,
        ErrorModel::Storage { .. } => ErrorSeverity::Error,
        ErrorModel::Serialization { .. } => ErrorSeverity::Error,
        ErrorModel::Unknown { .. } => ErrorSeverity::Critical,
    }
}

fn joined(a: &str, b: &str) -> (r: String)
    ensures
        r@ == a@ + b@,
{
    let mut r = String::from_str(a);
    r.append(b);
    r
}

impl AppError {
    /// A failure reported by the remote service, or an unsuccessful HTTP status.
    pub fn api(status: u32, message: &str) -> (r: AppError)
        ensures
            r@ == (ErrorModel::Api { status, message: message@ }),
    {
        AppError::Api { status, message: String::from_str(message) }
    }

    /// A transport failure: the request never produced a response.
    pub fn network(message: &str) -> (r: AppError)
        ensures
            r@ == (ErrorModel::Network { message: message@ }),
    {
        AppError::Network { message: String::from_str(message) }
    }

    /// Input that was refused before any work was attempted.
    pub fn validation(field: &str, message: &str) -> (r: AppError)
        ensures
            r@ == (ErrorModel::Validation { field: field@, message: message@ }),
    {
        AppError::Validation { field: String::from_str(field), message: String::from_str(message) }
    }

    /// A failure of the local credential store.
    pub fn storage(message: &str) -> (r: AppError)
        ensures
            r@ == (ErrorModel::Storage { message: message@ }),
    {
        AppError::Storage { message: String::from_str(message) }
    }

    /// A payload that could not be read as any known shape.
    pub fn serialization(message: &str) -> (r: AppError)
        ensures
            r@ == (ErrorModel::Serialization { message: message@ }),
    {
        AppError::Serialization { message: String::from_str(message) }
    }

    /// Anything else.
    pub fn unknown(message: &str) -> (r: AppError)
        ensures
            r@ == (ErrorModel::Unknown { message: message@ }),
    {
        AppError::Unknown { message: String::from_str(message) }
    }

    /// Whether retrying the same operation later may succeed.
    pub fn is_recoverable(&self) -> (r: bool)
        ensures
            r == (self@ is Network || self@ is Api),
    {
        match self {
            AppError::Network { .. } | AppError::Api { .. } => true,
            _ => false,
        }
    }

    /// The advisory severity of this failure.
    pub fn severity(&self) -> (r: ErrorSeverity)
        ensures
            r == severity_of(self@),
    {
        match self {
            AppError::Api { status, .. } => if *status >= 500 {
                ErrorSeverity::Critical
            } else {
                ErrorSeverity::Warning
            },
            AppError::Network { .. } => ErrorSeverity::Warning,
            AppError::Validation { .. } => ErrorSeverity::Info,
            AppError::Storage { .. } => ErrorSeverity::Error,
            AppError::Serialization { .. } => ErrorSeverity::Error,
            AppError::Unknown { .. } => ErrorSeverity::Critical,
        }
    }

    /// The text shown to the user for this failure.
    pub fn to_string(&self) -> (r: String)
        ensures
            r@ == error_text(self@),
    {
        match self {
            AppError::Api { status, message } => {
                let mut r = String::from_str("API Error (");
                let digits = decimal_text(*status);
                r.append(digits.as_str());
                r.append("): ");
                r.append(message.as_str());
                r
            },
            AppError::Network { message } => joined("Network Error: ", message.as_str()),
            AppError::Validation { field, message } => {
                let mut r = joined("Validation Error on ", field.as_str());
                r.append(": ");
                r.append(message.as_str());
                r
            },
            AppError::Storage { message } => joined("Storage Error: ", message.as_str()),
            AppError::Serialization { message } => joined(
                "Serialization Error: ",
                message.as_str(),
            ),
            AppError::Unknown { message } => joined("Unknown Error: ", message.as_str()),
        }
    }
}

} // verus!
