//! What the three operations of a range transport make of the replies that
//! a server sends: whether byte ranges are served, how long the resource
//! is, and the text of one range of it.
//!
//! Sending a request is not done here. The caller sends it and hands over
//! what came back, or the words of the failure if nothing came back.

use crate::decimal::{decimal, decimal_of, parse_decimal, parsed_of};
use crate::error::TransportError;
use vstd::prelude::*;
use vstd::string::*;

verus! {

/// The status of a reply that carries the whole resource.
pub const STATUS_OK: u16 = 200;

/// The status of a reply that carries the range asked for.
pub const STATUS_PARTIAL_CONTENT: u16 = 206;

/// What a header-only request told about the resource.
#[derive(Clone, Copy, Debug, PartialEq, Eq)]
pub struct Metadata {
    /// Whether the server announces that it serves byte ranges.
    pub accept_ranges: bool,
    /// The total size in bytes, where the server names one.
    pub content_length: Option<u64>,
}

/// What a ranged fetch brought back.
#[derive(Debug, PartialEq, Eq)]
pub struct Fetched {
    /// The status code of the reply.
    pub status: u16,
    /// The body as text, or the decoder's words where it is no text.
    pub body: Result<String, String>,
}

impl Metadata {
    /// What the headers of a reply tell: `accept_ranges` says whether the
    /// header that announces byte ranges is there, `content_length` is the
    /// value of the header that names the size, where that one is there.
    pub open spec fn read_from(accept_ranges: bool, content_length: Option<Seq<char>>) -> Metadata {
        Metadata {
            accept_ranges,
            content_length: match content_length {
                Some(value) => parsed_of(value),
                None => None,
            },
        }
    }

    /// Reads the headers of a reply to a header-only request. A size that
    /// is no decimal numeral, or one of a number above `u64::MAX`, counts
    /// as no size.
    pub fn read(accept_ranges: bool, content_length: Option<&str>) -> (metadata: Metadata)
        ensures
            metadata == Metadata::read_from(accept_ranges, content_length.deep_view()),
    {
        Metadata {
            accept_ranges,
            content_length: match content_length {
                Some(value) => parse_decimal(value),
                None => None,
            },
        }
    }
}

/// Whether a ranged fetch with this status is taken as a success.
pub open spec fn status_accepted(status: u16) -> bool {
    status == STATUS_OK || status == STATUS_PARTIAL_CONTENT
}

/// The outcome of the range-support probe for a given reply.
pub open spec fn range_support_of(reply: Result<Metadata, String>) -> Result<bool, TransportError> {
    match reply {
        Ok(metadata) => Ok(metadata.accept_ranges),
        Err(cause) => Err(TransportError::Request(cause)),
    }
}

/// The outcome of the length probe for a given reply.
pub open spec fn resource_length_of(reply: Result<Metadata, String>) -> Result<u64, TransportError> {
    match reply {
        Ok(metadata) => match metadata.content_length {
            Some(length) => Ok(length),
            None => Err(TransportError::MissingLength),
        },
        Err(cause) => Err(TransportError::Request(cause)),
    }
}

/// The outcome of a ranged fetch for a given reply.
pub open spec fn fetched_text_of(reply: Result<Fetched, String>) -> Result<String, TransportError> {
    match reply {
        Ok(fetched) => if status_accepted(fetched.status) {
            match fetched.body {
                Ok(text) => Ok(text),
                Err(cause) => Err(TransportError::Decode(cause)),
            }
        } else {
            Err(TransportError::UnexpectedStatus(fetched.status))
        },
        Err(cause) => Err(TransportError::Request(cause)),
    }
}

/// The byte-range header value that asks for the bytes from `offset` up to,
/// not including, `length`.
pub open spec fn range_request_of(offset: u64, length: u64) -> Seq<char> {
    "bytes="@ + decimal_of(offset as nat) + "-"@ + decimal_of((length - 1) as nat)
}

/// The length probe is repeatable: what it returns depends on the size that
/// the server names and on nothing else, so as long as the resource stays
/// as it is, every probe that gets through returns the same.
pub proof fn lemma_length_depends_on_size_alone(first: Metadata, second: Metadata)
    requires
        first.content_length == second.content_length,
    ensures
        resource_length_of(Ok(first)) == resource_length_of(Ok(second)),
{
}

/// Tells whether a ranged fetch with this status is taken as a success.
pub fn is_status_accepted(status: u16) -> (accepted: bool)
    ensures
        accepted == status_accepted(status),
{
    status == STATUS_OK || status == STATUS_PARTIAL_CONTENT
}

/// Reads from the reply to a header-only request whether the server serves
/// byte ranges. That it does not is an answer, not a failure.
pub fn range_support(reply: Result<Metadata, String>) -> (outcome: Result<bool, TransportError>)
    ensures
        outcome == range_support_of(reply),
        outcome is Ok <==> reply is Ok,
{
    match reply {
        Ok(metadata) => Ok(metadata.accept_ranges),
        Err(cause) => Err(TransportError::Request(cause)),
    }
}

/// Reads the total size of the resource from the reply to a header-only
/// request. A reply that names no size is a failure: no size is made up.
pub fn resource_length(reply: Result<Metadata, String>) -> (outcome: Result<u64, TransportError>)
    ensures
        outcome == resource_length_of(reply),
        outcome is Ok <==> (reply matches Ok(metadata) && metadata.content_length is Some),
{
    match reply {
        Ok(metadata) => match metadata.content_length {
            Some(length) => Ok(length),
            None => Err(TransportError::MissingLength),
        },
        Err(cause) => Err(TransportError::Request(cause)),
    }
}

/// Writes the byte-range header value for the bytes from `offset` up to, not
/// including, `length`. The last byte asked for is the one before `length`.
pub fn range_request(offset: u64, length: u64) -> (value: String)
    requires
        length > 0,
    ensures
        value@ == range_request_of(offset, length),
{
    let first: String = decimal(offset);
    let last: String = decimal(length - 1);
    String::from_str("bytes=").concat(first.as_str()).concat("-").concat(last.as_str())
}

/// Reads the text out of the reply to a ranged fetch. The status is looked
/// at before the body: with a status other than 200 and 206 the body
/// does not count.
pub fn fetched_text(reply: Result<Fetched, String>) -> (outcome: Result<String, TransportError>)
    ensures
        outcome == fetched_text_of(reply),
        outcome is Ok <==> (reply matches Ok(fetched) && status_accepted(fetched.status)
            && fetched.body is Ok),
{
    match reply {
        Ok(fetched) => {
            if is_status_accepted(fetched.status) {
                match fetched.body {
                    Ok(text) => Ok(text),
                    Err(cause) => Err(TransportError::Decode(cause)),
                }
            } else {
                Err(TransportError::UnexpectedStatus(fetched.status))
            }
        },
        Err(cause) => Err(TransportError::Request(cause)),
    }
}

} // verus!
