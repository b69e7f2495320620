//! What the headers say about the framing of a body.

use crate::error::Error;
use crate::headers::{lookup, Field, Headers};
use crate::text::{parse_decimal_usize, parse_usize};
use vstd::prelude::*;

verus! {

/// The name of the header that declares a body's length.
pub open spec fn content_length_name() -> Seq<char> {
    "Content-Length"@
}

/// The name of the header that declares a body's transfer encoding.
pub open spec fn transfer_encoding_name() -> Seq<char> {
    "Transfer-Encoding"@
}

/// The transfer encoding that `headers` declare: the value of
/// `Transfer-Encoding`, or `identity` where that header is not set.
pub open spec fn transfer_encoding(headers: Seq<Field>) -> Seq<char> {
    match lookup(headers, transfer_encoding_name()) {
        Some(encoding) => encoding,
        None => "identity"@,
    }
}

/// The body length that `headers` declare, held against `limit`.
///
/// It is the value of `Content-Length` read as a decimal number. A missing
/// header and a value that is no such number are `InvalidData`; a number
/// above `limit` is `LimitExceeded`.
pub open spec fn content_length(headers: Seq<Field>, limit: Option<usize>) -> Result<
    usize,
    Error,
> {
    match lookup(headers, content_length_name()) {
        Some(text) => match parse_usize(text) {
            Some(length) => match limit {
                Some(most) if most < length => Err(Error::LimitExceeded),
                _ => Ok(length),
            },
            None => Err(Error::InvalidData),
        },
        None => Err(Error::InvalidData),
    }
}

/// The transfer encoding that the headers declare, `identity` by default.
pub fn read_transfer_encoding(headers: &Headers) -> (r: &str)
    ensures
        r@ == transfer_encoding(headers@),
{
    match headers.get("Transfer-Encoding") {
        Some(encoding) => encoding.as_str(),
        None => "identity",
    }
}

/// The body length that the headers declare, if it is within `limit`.
pub fn read_content_length(headers: &Headers, limit: Option<usize>) -> (r: Result<usize, Error>)
    ensures
        r == content_length(headers@, limit),
{
    match headers.get("Content-Length") {
        Some(text) => match parse_decimal_usize(text.as_str()) {
            Some(length) => match limit {
                Some(most) => if most >= length {
                    Ok(length)
                } else {
                    Err(Error::LimitExceeded)
                },
                None => Ok(length),
            },
            None => Err(Error::InvalidData),
        },
        None => Err(Error::InvalidData),
    }
}

} // verus!
