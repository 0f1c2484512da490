//! Why a transport operation failed.

use crate::decimal::{decimal, decimal_of};
use vstd::prelude::*;
use vstd::string::*;

verus! {

/// A failure of one transport operation. Each of them ends the tail.
#[derive(Debug, PartialEq, Eq)]
pub enum TransportError {
    /// The request could not be carried out: no connection, no name
    /// resolution, a timeout below HTTP. Holds the transport's own words.
    Request(String),
    /// The server answered a ranged fetch with a status that is neither
    /// 200 nor 206. Holds the status code.
    UnexpectedStatus(u16),
    /// The metadata of the resource names no total size.
    MissingLength,
    /// The body of a fetch is no text. Holds the decoder's own words.
    Decode(String),
}

impl TransportError {
    /// The message that a user is shown for this failure.
    pub open spec fn message_of(self) -> Seq<char> {
        match self {
            TransportError::Request(cause) => "Request failed: "@ + cause@,
            TransportError::UnexpectedStatus(code) => "Unexpected status code from server: "@
                + decimal_of(code as nat),
            TransportError::MissingLength => "No Content-Length in url"@,
            TransportError::Decode(cause) => "Error fetching text: "@ + cause@,
        }
    }

    /// Writes the message that a user is shown for this failure.
    pub fn message(&self) -> (text: String)
        ensures
            text@ == self.message_of(),
    {
        match self {
            TransportError::Request(cause) => {
                String::from_str("Request failed: ").concat(cause.as_str())
            },
            TransportError::UnexpectedStatus(code) => {
                let number: String = decimal(*code as u64);
                String::from_str("Unexpected status code from server: ").concat(number.as_str())
            },
            TransportError::MissingLength => String::from_str("No Content-Length in url"),
            TransportError::Decode(cause) => {
                String::from_str("Error fetching text: ").concat(cause.as_str())
            },
        }
    }
}

} // verus!
