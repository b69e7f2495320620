//! The response status.

use crate::error::Error;
use crate::text::{decimal, format_decimal};
use std::str::FromStr;
use vstd::prelude::*;
use vstd::utf8::{decode_utf8, valid_utf8};

verus! {

/// An HTTP response status.
#[derive(Debug, Clone, Copy, PartialEq, Eq, Hash, Structural)]
pub enum Status {
    Continue,
    SwitchingProtocols,
    EarlyHints,
    Okay,
    Created,
    Accepted,
    NonAuthoritativeInformation,
    NoContent,
    ResetContent,
    PartialContent,
    ImUsed,
    MultipleChoice,
    MovedPermanently,
    Found,
    SeeOther,
    NotModified,
    TemporaryRedirect,
    PermanentRedirect,
    BadRequest,
    Unauthorized,
    PaymentRequired,
    Forbidden,
    NotFound,
    MethodNotAllowed,
    NotAcceptable,
    ProxyAuthenticationRequired,
    RequestTimeout,
    Conflict,
    Gone,
    LengthRequired,
    PreconditionFailed,
    PayloadTooLarge,
    UriTooLong,
    UnsupportedMediaType,
    RequestedRangeNotSatisfiable,
    ExpectationFailed,
    ImATeapot,
    MisdirectedRequest,
    TooEarly,
    UpgradeRequired,
    PreconditionRequired,
    TooManyRequests,
    RequestHeaderFieldsTooLarge,
    UnavailableForLegalReasons,
    InternalServerError,
    NotImplemented,
    BadGateway,
    ServiceUnavailable,
    GatewayTimeout,
    HttpVersionNotSupported,
    VariantAlsoNegotiates,
    NotExtended,
    NetworkAuthenticationRequired,
}

/// The status code that `async_httplib::Status::from_str` reads from a text,
/// if it reads one.
pub uninterp spec fn status_number_of_token(token: Seq<char>) -> Option<u16>;

/// The reason phrase that `async_httplib::Status::reason` gives for the
/// status of a code, if `async_httplib::Status` has a status of that code.
pub uninterp spec fn reason_of_number(code: u16) -> Option<Seq<char>>;

/// Reads a status code from its text. Trusted: `async_httplib::Status::from_str`
/// computes its result from the text alone; what comes back is the code of
/// the status that it read.
#[verifier::external_body]
fn status_code_from_token(token: &str) -> (r: Result<u16, std::io::Error>)
    ensures
        r is Ok <==> status_number_of_token(token@) is Some,
        r is Ok ==> status_number_of_token(token@) == Some(r->Ok_0),
{
    Ok(async_httplib::Status::from_str(token)?.code())
}

/// Reads a status code from the bytes of its text. Trusted:
/// `async_httplib::parse_status` fails on bytes that are not UTF-8 and reads
/// the text that they encode as `async_httplib::Status::from_str` does.
#[verifier::external_body]
fn status_code_from_bytes(data: Vec<u8>) -> (r: Result<u16, std::io::Error>)
    ensures
        r is Ok <==> status_number_of_octets(data@) is Some,
        r is Ok ==> status_number_of_octets(data@) == Some(r->Ok_0),
{
    Ok(async_httplib::parse_status(data)?.code())
}

/// The reason phrase of a status code. Trusted: `async_httplib::Status`
/// looks a status up by its code and `reason` gives that status's phrase,
/// both from the code alone.
#[verifier::external_body]
fn status_reason(code: u16) -> (r: Option<String>)
    ensures
        r is Some <==> reason_of_number(code) is Some,
        r is Some ==> reason_of_number(code) == Some(r->0@),
{
    match async_httplib::Status::try_from(code) {
        Ok(status) => Some(status.reason().to_string()),
        Err(_) => None,
    }
}

/// The status code that the bytes of a text stand for: none unless the bytes
/// are UTF-8.
pub open spec fn status_number_of_octets(data: Seq<u8>) -> Option<u16> {
    if valid_utf8(data) {
        status_number_of_token(decode_utf8(data))
    } else {
        None
    }
}

/// The status of a code that was read, or `InvalidStatus` where nothing was
/// read or no status has that code.
pub open spec fn status_of_reading(code: Option<u16>) -> Result<Status, Error> {
    match code {
        Some(code) => match Status::from_number(code) {
            Some(status) => Ok(status),
            None => Err(Error::InvalidStatus),
        },
        None => Err(Error::InvalidStatus),
    }
}

impl Status {
    /// The status code.
    pub open spec fn number(self) -> u16 {
        match self {
            Status::Continue => 100,
            Status::SwitchingProtocols => 101,
            Status::EarlyHints => 103,
            Status::Okay => 200,
            Status::Created => 201,
            Status::Accepted => 202,
            Status::NonAuthoritativeInformation => 203,
            Status::NoContent => 204,
            Status::ResetContent => 205,
            Status::PartialContent => 206,
            Status::ImUsed => 226,
            Status::MultipleChoice => 300,
            Status::MovedPermanently => 301,
            Status::Found => 302,
            Status::SeeOther => 303,
            Status::NotModified => 304,
            Status::TemporaryRedirect => 307,
            Status::PermanentRedirect => 308,
            Status::BadRequest => 400,
            Status::Unauthorized => 401,
            Status::PaymentRequired => 402,
            Status::Forbidden => 403,
            Status::NotFound => 404,
            Status::MethodNotAllowed => 405,
            Status::NotAcceptable => 406,
            Status::ProxyAuthenticationRequired => 407,
            Status::RequestTimeout => 408,
            Status::Conflict => 409,
            Status::Gone => 410,
            Status::LengthRequired => 411,
            Status::PreconditionFailed => 412,
            Status::PayloadTooLarge => 413,
            Status::UriTooLong => 414,
            Status::UnsupportedMediaType => 415,
            Status::RequestedRangeNotSatisfiable => 416,
            Status::ExpectationFailed => 417,
            Status::ImATeapot => 418,
            Status::MisdirectedRequest => 421,
            Status::TooEarly => 425,
            Status::UpgradeRequired => 426,
            Status::PreconditionRequired => 428,
            Status::TooManyRequests => 429,
            Status::RequestHeaderFieldsTooLarge => 431,
            Status::UnavailableForLegalReasons => 451,
            Status::InternalServerError => 500,
            Status::NotImplemented => 501,
            Status::BadGateway => 502,
            Status::ServiceUnavailable => 503,
            Status::GatewayTimeout => 504,
            Status::HttpVersionNotSupported => 505,
            Status::VariantAlsoNegotiates => 506,
            Status::NotExtended => 510,
            Status::NetworkAuthenticationRequired => 511,
        }
    }

    /// The status that has the code `n`.
    pub open spec fn from_number(n: u16) -> Option<Status> {
        match n {
            100 => Some(Status::Continue),
            101 => Some(Status::SwitchingProtocols),
            103 => Some(Status::EarlyHints),
            200 => Some(Status::Okay),
            201 => Some(Status::Created),
            202 => Some(Status::Accepted),
            203 => Some(Status::NonAuthoritativeInformation),
            204 => Some(Status::NoContent),
            205 => Some(Status::ResetContent),
            206 => Some(Status::PartialContent),
            226 => Some(Status::ImUsed),
            300 => Some(Status::MultipleChoice),
            301 => Some(Status::MovedPermanently),
            302 => Some(Status::Found),
            303 => Some(Status::SeeOther),
            304 => Some(Status::NotModified),
            307 => Some(Status::TemporaryRedirect),
            308 => Some(Status::PermanentRedirect),
            400 => Some(Status::BadRequest),
            401 => Some(Status::Unauthorized),
            402 => Some(Status::PaymentRequired),
            403 => Some(Status::Forbidden),
            404 => Some(Status::NotFound),
            405 => Some(Status::MethodNotAllowed),
            406 => Some(Status::NotAcceptable),
            407 => Some(Status::ProxyAuthenticationRequired),
            408 => Some(Status::RequestTimeout),
            409 => Some(Status::Conflict),
            410 => Some(Status::Gone),
            411 => Some(Status::LengthRequired),
            412 => Some(Status::PreconditionFailed),
            413 => Some(Status::PayloadTooLarge),
            414 => Some(Status::UriTooLong),
            415 => Some(Status::UnsupportedMediaType),
            416 => Some(Status::RequestedRangeNotSatisfiable),
            417 => Some(Status::ExpectationFailed),
            418 => Some(Status::ImATeapot),
            421 => Some(Status::MisdirectedRequest),
            425 => Some(Status::TooEarly),
            426 => Some(Status::UpgradeRequired),
            428 => Some(Status::PreconditionRequired),
            429 => Some(Status::TooManyRequests),
            431 => Some(Status::RequestHeaderFieldsTooLarge),
            451 => Some(Status::UnavailableForLegalReasons),
            500 => Some(Status::InternalServerError),
            501 => Some(Status::NotImplemented),
            502 => Some(Status::BadGateway),
            503 => Some(Status::ServiceUnavailable),
            504 => Some(Status::GatewayTimeout),
            505 => Some(Status::HttpVersionNotSupported),
            506 => Some(Status::VariantAlsoNegotiates),
            510 => Some(Status::NotExtended),
            511 => Some(Status::NetworkAuthenticationRequired),
            _ => None,
        }
    }

    /// Every status is the one that has its code.
    pub proof fn lemma_number_round_trip(self)
        ensures
            Status::from_number(self.number()) == Some(self),
    {
    }

    /// The status code.
    pub fn code(&self) -> (r: u16)
        ensures
            r == self.number(),
    {
        match self {
            Status::Continue => 100,
            Status::SwitchingProtocols => 101,
            Status::EarlyHints => 103,
            Status::Okay => 200,
            Status::Created => 201,
            Status::Accepted => 202,
            Status::NonAuthoritativeInformation => 203,
            Status::NoContent => 204,
            Status::ResetContent => 205,
            Status::PartialContent => 206,
            Status::ImUsed => 226,
            Status::MultipleChoice => 300,
            Status::MovedPermanently => 301,
            Status::Found => 302,
            Status::SeeOther => 303,
            Status::NotModified => 304,
            Status::TemporaryRedirect => 307,
            Status::PermanentRedirect => 308,
            Status::BadRequest => 400,
            Status::Unauthorized => 401,
            Status::PaymentRequired => 402,
            Status::Forbidden => 403,
            Status::NotFound => 404,
            Status::MethodNotAllowed => 405,
            Status::NotAcceptable => 406,
            Status::ProxyAuthenticationRequired => 407,
            Status::RequestTimeout => 408,
            Status::Conflict => 409,
            Status::Gone => 410,
            Status::LengthRequired => 411,
            Status::PreconditionFailed => 412,
            Status::PayloadTooLarge => 413,
            Status::UriTooLong => 414,
            Status::UnsupportedMediaType => 415,
            Status::RequestedRangeNotSatisfiable => 416,
            Status::ExpectationFailed => 417,
            Status::ImATeapot => 418,
            Status::MisdirectedRequest => 421,
            Status::TooEarly => 425,
            Status::UpgradeRequired => 426,
            Status::PreconditionRequired => 428,
            Status::TooManyRequests => 429,
            Status::RequestHeaderFieldsTooLarge => 431,
            Status::UnavailableForLegalReasons => 451,
            Status::InternalServerError => 500,
            Status::NotImplemented => 501,
            Status::BadGateway => 502,
            Status::ServiceUnavailable => 503,
            Status::GatewayTimeout => 504,
            Status::HttpVersionNotSupported => 505,
            Status::VariantAlsoNegotiates => 506,
            Status::NotExtended => 510,
            Status::NetworkAuthenticationRequired => 511,
        }
    }

    /// The status that has the code `code`; `InvalidStatus` if none has.
    pub fn from_code(code: u16) -> (r: Result<Status, Error>)
        ensures
            r == status_of_reading(Some(code)),
    {
        match code {
            100 => Ok(Status::Continue),
            101 => Ok(Status::SwitchingProtocols),
            103 => Ok(Status::EarlyHints),
            200 => Ok(Status::Okay),
            201 => Ok(Status::Created),
            202 => Ok(Status::Accepted),
            203 => Ok(Status::NonAuthoritativeInformation),
            204 => Ok(Status::NoContent),
            205 => Ok(Status::ResetContent),
            206 => Ok(Status::PartialContent),
            226 => Ok(Status::ImUsed),
            300 => Ok(Status::MultipleChoice),
            301 => Ok(Status::MovedPermanently),
            302 => Ok(Status::Found),
            303 => Ok(Status::SeeOther),
            304 => Ok(Status::NotModified),
            307 => Ok(Status::TemporaryRedirect),
            308 => Ok(Status::PermanentRedirect),
            400 => Ok(Status::BadRequest),
            401 => Ok(Status::Unauthorized),
            402 => Ok(Status::PaymentRequired),
            403 => Ok(Status::Forbidden),
            404 => Ok(Status::NotFound),
            405 => Ok(Status::MethodNotAllowed),
            406 => Ok(Status::NotAcceptable),
            407 => Ok(Status::ProxyAuthenticationRequired),
            408 => Ok(Status::RequestTimeout),
            409 => Ok(Status::Conflict),
            410 => Ok(Status::Gone),
            411 => Ok(Status::LengthRequired),
            412 => Ok(Status::PreconditionFailed),
            413 => Ok(Status::PayloadTooLarge),
            414 => Ok(Status::UriTooLong),
            415 => Ok(Status::UnsupportedMediaType),
            416 => Ok(Status::RequestedRangeNotSatisfiable),
            417 => Ok(Status::ExpectationFailed),
            418 => Ok(Status::ImATeapot),
            421 => Ok(Status::MisdirectedRequest),
            425 => Ok(Status::TooEarly),
            426 => Ok(Status::UpgradeRequired),
            428 => Ok(Status::PreconditionRequired),
            429 => Ok(Status::TooManyRequests),
            431 => Ok(Status::RequestHeaderFieldsTooLarge),
            451 => Ok(Status::UnavailableForLegalReasons),
            500 => Ok(Status::InternalServerError),
            501 => Ok(Status::NotImplemented),
            502 => Ok(Status::BadGateway),
            503 => Ok(Status::ServiceUnavailable),
            504 => Ok(Status::GatewayTimeout),
            505 => Ok(Status::HttpVersionNotSupported),
            506 => Ok(Status::VariantAlsoNegotiates),
            510 => Ok(Status::NotExtended),
            511 => Ok(Status::NetworkAuthenticationRequired),
            _ => Err(Error::InvalidStatus),
        }
    }

    /// Reads a status from the text of its code.
    pub fn from_str(token: &str) -> (r: Result<Status, Error>)
        ensures
            r == status_of_reading(status_number_of_token(token@)),
    {
        match status_code_from_token(token) {
            Ok(code) => Status::from_code(code),
            Err(_) => Err(Error::InvalidStatus),
        }
    }

    /// Reads a status from the bytes of its code, as they stand in a status
    /// line.
    pub fn from_bytes(data: Vec<u8>) -> (r: Result<Status, Error>)
        ensures
            r == status_of_reading(status_number_of_octets(data@)),
    {
        match status_code_from_bytes(data) {
            Ok(code) => Status::from_code(code),
            Err(_) => Err(Error::InvalidStatus),
        }
    }

    /// The reason phrase as a contract sees it; empty where none is known.
    pub open spec fn phrase(self) -> Seq<char> {
        match reason_of_number(self.number()) {
            Some(phrase) => phrase,
            None => Seq::empty(),
        }
    }

    /// The status code in decimal notation.
    pub fn to_string(&self) -> (r: String)
        ensures
            r@ == decimal(self.number() as nat),
    {
        format_decimal(self.code() as usize)
    }

    /// The canonical reason phrase of the status.
    pub fn reason(&self) -> (r: String)
        ensures
            r@ == self.phrase(),
    {
        match status_reason(self.code()) {
            Some(phrase) => phrase,
            None => String::new(),
        }
    }
}

} // verus!
