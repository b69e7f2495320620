//! The parsed URL of a request.

use crate::error::Error;
use vstd::prelude::*;

verus! {

/// The error type of the URL parser. It is only mapped onto `InvalidUrl`.
#[verifier::external_type_specification]
#[verifier::external_body]
pub struct ExParseError(::url::ParseError);

/// What a request reads of a URL.
pub struct UrlView {
    /// The scheme, in lower case, without the colon.
    pub scheme: Seq<char>,
    /// The host as text, where the URL has one.
    pub host: Option<Seq<char>>,
    /// The port: the one written in the URL, else the scheme's known default.
    pub port: Option<u16>,
    /// Path, query and fragment as they follow the host and port.
    pub resource: Seq<char>,
}

/// What `::url::Url::parse` makes of a text: nothing where the text is no
/// absolute URL, else the parts of the URL that it parsed.
pub uninterp spec fn parsed_url(text: Seq<char>) -> Option<UrlView>;

/// The parts of the URL `http://localhost/`.
pub open spec fn localhost_view() -> UrlView {
    UrlView { scheme: "http"@, host: Some("localhost"@), port: Some(80), resource: "/"@ }
}

/// The URL of a request that was given none: what the parser makes of
/// `http://localhost`.
pub open spec fn default_url() -> UrlView {
    match parsed_url("http://localhost"@) {
        Some(url) => url,
        None => localhost_view(),
    }
}

/// An absolute URL, as far as a request reads it.
#[derive(Debug, Clone)]
pub struct Url {
    scheme: String,
    host: Option<String>,
    port: Option<u16>,
    resource: String,
}

impl View for Url {
    type V = UrlView;

    closed spec fn view(&self) -> UrlView {
        UrlView {
            scheme: self.scheme@,
            host: match self.host {
                Some(host) => Some(host@),
                None => None,
            },
            port: self.port,
            resource: self.resource@,
        }
    }
}

/// Parses a text as an absolute URL. Trusted: `::url::Url::parse` computes
/// its result from the text alone. Of a parsed URL the wrapper keeps what
/// `scheme`, `host_str` and `port_or_known_default` return and the slice
/// that starts at `Position::BeforePath`.
#[verifier::external_body]
fn parse_text(text: &str) -> (r: Result<Url, ::url::ParseError>)
    ensures
        r is Ok <==> parsed_url(text@) is Some,
        r is Ok ==> parsed_url(text@) == Some(r->Ok_0@),
{
    let parsed = ::url::Url::parse(text)?;
    Ok(Url {
        scheme: parsed.scheme().to_string(),
        host: parsed.host_str().map(String::from),
        port: parsed.port_or_known_default(),
        resource: parsed[::url::Position::BeforePath..].to_string(),
    })
}

impl Url {
    /// Parses `text` as an absolute URL; `InvalidUrl` if it is none.
    pub fn parse(text: &str) -> (r: Result<Url, Error>)
        ensures
            match r {
                Ok(url) => parsed_url(text@) == Some(url@),
                Err(e) => e == Error::InvalidUrl && parsed_url(text@) is None,
            },
    {
        match parse_text(text) {
            Ok(url) => Ok(url),
            Err(_) => Err(Error::InvalidUrl),
        }
    }

    /// The URL `http://localhost/`.
    pub fn localhost() -> (r: Url)
        ensures
            r@ == localhost_view(),
    {
        Url {
            scheme: String::from_str("http"),
            host: Some(String::from_str("localhost")),
            port: Some(80),
            resource: String::from_str("/"),
        }
    }

    /// The scheme, in lower case, without the colon.
    pub fn scheme(&self) -> (r: &str)
        ensures
            r@ == self@.scheme,
    {
        self.scheme.as_str()
    }

    /// The host as text, where the URL has one.
    pub fn host_str(&self) -> (r: Option<&str>)
        ensures
            match r {
                Some(host) => self@.host == Some(host@),
                None => self@.host is None,
            },
    {
        match &self.host {
            Some(host) => Some(host.as_str()),
            None => None,
        }
    }

    /// The port: the one written in the URL, else the known default of the
    /// scheme, if it has one.
    pub fn port_or_known_default(&self) -> (r: Option<u16>)
        ensures
            r == self@.port,
    {
        self.port
    }

    /// Path, query and fragment: what a request line names.
    pub fn resource(&self) -> (r: &str)
        ensures
            r@ == self@.resource,
    {
        self.resource.as_str()
    }
}

} // verus!
