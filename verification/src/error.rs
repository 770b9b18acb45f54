//! What can go wrong with a schedule or with the stored event list.

use vstd::prelude::*;

verus! {

/// `std::io::Error`: why the data file could not be read.
#[verifier::external_type_specification]
#[verifier::external_body]
pub struct ExIoError(std::io::Error);

/// `serde_json::Error`: why the data file does not hold an event list.
#[verifier::external_type_specification]
#[verifier::external_body]
pub struct ExJsonError(serde_json::Error);

/// The errors of this library.
#[derive(Debug)]
pub enum RecollectError {
    /// The text, which is carried along, is no cron expression.
    ParseSchedError(String),
    /// The data file could not be read.
    LoadError(std::io::Error),
    /// The data file does not hold an event list.
    ParseStorageError(serde_json::Error),
}

/// `io::Error`'s `to_string`: the text that the error shows. It may differ
/// from one machine to the next, so nothing is claimed of it.
#[verifier::external_body]
fn io_error_text(error: &std::io::Error) -> (text: String) {
    error.to_string()
}

/// `serde_json::Error`'s `to_string`: the text that the error shows.
/// Nothing is claimed of it.
#[verifier::external_body]
fn json_error_text(error: &serde_json::Error) -> (text: String) {
    error.to_string()
}

impl RecollectError {
    /// What the message of the error begins with.
    pub open spec fn heading(self) -> Seq<char> {
        match self {
            RecollectError::ParseSchedError(_) => "Failed to parse schedule string: "@,
            RecollectError::LoadError(_) => "Failed to load storage: "@,
            RecollectError::ParseStorageError(_) => "Failed to parse storage: "@,
        }
    }

    /// The message of the error: its heading, and then the rejected text or
    /// what the error underneath shows.
    pub fn to_text(&self) -> (message: String)
        ensures
            self matches RecollectError::ParseSchedError(text) ==> message@ == self.heading()
                + text@,
            self.heading().is_prefix_of(message@),
    {
        match self {
            RecollectError::ParseSchedError(text) => {
                let mut message = String::from_str("Failed to parse schedule string: ");
                message.append(text.as_str());
                message
            },
            RecollectError::LoadError(error) => {
                let detail = io_error_text(error);
                let mut message = String::from_str("Failed to load storage: ");
                message.append(detail.as_str());
                message
            },
            RecollectError::ParseStorageError(error) => {
                let detail = json_error_text(error);
                let mut message = String::from_str("Failed to parse storage: ");
                message.append(detail.as_str());
                message
            },
        }
    }
}

impl From<std::io::Error> for RecollectError {
    fn from(error: std::io::Error) -> (wrapped: RecollectError) {
        RecollectError::LoadError(error)
    }
}

impl vstd::std_specs::convert::FromSpecImpl<std::io::Error> for RecollectError {
    open spec fn obeys_from_spec() -> bool {
        true
    }

    open spec fn from_spec(error: std::io::Error) -> RecollectError {
        RecollectError::LoadError(error)
    }
}

impl From<serde_json::Error> for RecollectError {
    fn from(error: serde_json::Error) -> (wrapped: RecollectError) {
        RecollectError::ParseStorageError(error)
    }
}

impl vstd::std_specs::convert::FromSpecImpl<serde_json::Error> for RecollectError {
    open spec fn obeys_from_spec() -> bool {
        true
    }

    open spec fn from_spec(error: serde_json::Error) -> RecollectError {
        RecollectError::ParseStorageError(error)
    }
}

} // verus!
