//! Errors reported to the user interface.

use vstd::prelude::*;

verus! {

/// Why an operation requested by the user interface failed.
#[derive(Debug, Clone, PartialEq, Eq)]
pub enum ViewerError {
    /// The path given was empty or blank.
    InvalidArgument,
    /// Reading or writing `path` failed with the system's `message`.
    Io { path: String, message: String },
    /// The user dismissed a dialog.
    Canceled,
    /// The demo configuration could not be encoded.
    Serialization { message: String },
}

pub open spec fn error_message(e: ViewerError) -> Seq<char> {
    match e {
        ViewerError::InvalidArgument => "path is empty"@,
        ViewerError::Io { path, message } => path@ + ": "@ + message@,
        ViewerError::Canceled => "Save canceled"@,
        ViewerError::Serialization { message } => "could not encode the demo configuration: "@
            + message@,
    }
}

impl ViewerError {
    /// The human-readable text shown to the user.
    pub fn message(&self) -> (r: String)
        ensures
            r@ == error_message(*self),
    {
        match self {
            ViewerError::InvalidArgument => String::from_str("path is empty"),
            ViewerError::Io { path, message } => {
                let mut out = path.clone();
                out.append(": ");
                out.append(message.as_str());
                out
            },
            ViewerError::Canceled => String::from_str("Save canceled"),
            ViewerError::Serialization { message } => {
                let mut out = String::from_str("could not encode the demo configuration: ");
                out.append(message.as_str());
                out
            },
        }
    }
}

} // verus!
