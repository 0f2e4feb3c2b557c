//! The failures a transfer can end with.

use crate::text::{decimal, decimal_digits};
use vstd::prelude::*;
use vstd::string::*;

verus! {

/// Why a single transfer stopped. Every failure is final for its item; the
/// batch goes on with the next one.
#[derive(Clone, Copy, Debug, PartialEq, Eq, Structural)]
pub enum FetchError {
    /// The response did not state a content length.
    MissingLength,
    /// The request could not be sent or received no answer.
    RequestFailed,
    /// The body stream broke while it was being read.
    StreamError,
    /// The destination file could not be created.
    FileCreateFailed,
    /// The received bytes could not be written to the destination.
    WriteFailed,
    /// A ranged request was answered with a status other than 200 or 206.
    UnexpectedStatus(u16),
}

/// The text that names a failure in the log.
pub open spec fn error_text(error: FetchError) -> Seq<char> {
    match error {
        FetchError::MissingLength => "Response doesn't have the content length"@,
        FetchError::RequestFailed => "Failed to send request"@,
        FetchError::StreamError => "Error while downloading file"@,
        FetchError::FileCreateFailed => "Failed to create file"@,
        FetchError::WriteFailed => "Error while writing to file"@,
        FetchError::UnexpectedStatus(code) => "Unexpected server response: "@ + decimal_digits(
            code as nat,
        ),
    }
}

impl FetchError {
    /// The text that names this failure in the log.
    pub fn message(&self) -> (text: String)
        ensures
            text@ == error_text(*self),
    {
        match self {
            FetchError::MissingLength => String::from_str("Response doesn't have the content length"),
            FetchError::RequestFailed => String::from_str("Failed to send request"),
            FetchError::StreamError => String::from_str("Error while downloading file"),
            FetchError::FileCreateFailed => String::from_str("Failed to create file"),
            FetchError::WriteFailed => String::from_str("Error while writing to file"),
            FetchError::UnexpectedStatus(code) => {
                let mut text = String::from_str("Unexpected server response: ");
                let number = decimal(*code as u64);
                text.append(number.as_str());
                text
            },
        }
    }
}

} // verus!
