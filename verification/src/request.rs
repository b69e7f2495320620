//! The request: what is asked of which server, and how it goes on the wire.

use crate::address::{default_url, parsed_url, Url, UrlView};
use crate::error::Error;
use crate::framing::{Framing, Transmission, TransmissionView, CHUNK_SIZE};
use crate::headers::{discard, is_set, lookup, put, Field, Headers};
use crate::json::json_to_string;
use crate::method::Method;
use crate::text::{decimal, format_decimal, str_eq};
use crate::utils::{content_length, content_length_name, read_content_length, transfer_encoding_name};
use crate::version::Version;
use crate::wire::{header_block, write_headers};
use vstd::prelude::*;
use vstd::utf8::encode_utf8;

verus! {

/// A [`Request`] as a contract sees it.
pub struct RequestView {
    pub url: UrlView,
    pub method: Method,
    pub version: Version,
    pub headers: Seq<Field>,
    pub relay: Option<Seq<char>>,
    pub body_limit: Option<usize>,
}

impl RequestView {
    /// A request for `url` to which nothing else was done: `GET`, HTTP/1.1,
    /// no header, no relay, no limit.
    pub open spec fn fresh(url: UrlView) -> RequestView {
        RequestView {
            url,
            method: Method::Get,
            version: Version::Http1_1,
            headers: Seq::empty(),
            relay: None,
            body_limit: None,
        }
    }

    /// The host to reach: the URL's, or `localhost` where it has none.
    pub open spec fn host(self) -> Seq<char> {
        match self.url.host {
            Some(host) => host,
            None => "localhost"@,
        }
    }

    /// The port to reach: the URL's or its scheme's, or 80 where neither is
    /// known.
    pub open spec fn port(self) -> u16 {
        match self.url.port {
            Some(port) => port,
            None => 80,
        }
    }

    /// Host and port as `host:port`. The port is always written.
    pub open spec fn host_with_port(self) -> Seq<char> {
        self.host() + ":"@ + decimal(self.port() as nat)
    }

    /// The address to connect to: the relay where one is set, else the
    /// URL's host and port.
    pub open spec fn socket_address(self) -> Seq<char> {
        match self.relay {
            Some(relay) => relay,
            None => self.host_with_port(),
        }
    }

    /// The request line. Under HTTP/0.9 it is `GET` and the resource,
    /// whatever the method; else method, resource and version.
    pub open spec fn request_line(self) -> Seq<char> {
        if self.version is Http0_9 {
            "GET "@ + self.url.resource + "\r\n"@
        } else {
            self.method.token() + " "@ + self.url.resource + " "@ + self.version.token()
                + "\r\n"@
        }
    }

    /// The head of the request on the wire. Under HTTP/0.9 it is the
    /// request line alone; else the request line, the header block and an
    /// empty line.
    pub open spec fn proto_text(self) -> Seq<char> {
        if self.version is Http0_9 {
            self.request_line()
        } else {
            self.request_line() + header_block(self.headers) + "\r\n"@
        }
    }

    /// The request after the header `name` was given `value`.
    pub open spec fn with_header(self, name: Seq<char>, value: Seq<char>) -> RequestView {
        RequestView { headers: put(self.headers, name, value), ..self }
    }

    /// The request with its `Host` header resolved: from HTTP/1.1 on, a
    /// request without that header gets it, as host and port.
    pub open spec fn with_host_header(self) -> RequestView {
        if self.version.number() >= Version::Http1_1.number() && !is_set(self.headers, "Host"@) {
            self.with_header("Host"@, self.host_with_port())
        } else {
            self
        }
    }

    /// The request with its body headers resolved: where the method
    /// carries a body and no `Content-Length` is set, `Transfer-Encoding`
    /// becomes `chunked`.
    pub open spec fn with_body_headers(self) -> RequestView {
        if self.method.carries_body() && !is_set(self.headers, content_length_name()) {
            self.with_header(transfer_encoding_name(), "chunked"@)
        } else {
            self
        }
    }

    /// The request with `Content-Length` set to `length`.
    pub open spec fn with_content_length(self, length: usize) -> RequestView {
        self.with_header(content_length_name(), decimal(length as nat))
    }

    /// How the body is written.
    ///
    /// Under HTTP/0.9 all of it, within the body limit. Else, where
    /// `Content-Length` is set, exactly the declared number of bytes: a
    /// declaration above the body limit is `LimitExceeded`, one that is no
    /// number is `InvalidData`. Else in chunks of at most [`CHUNK_SIZE`]
    /// bytes, within the body limit.
    pub open spec fn framing(self) -> Result<Framing, Error> {
        if self.version is Http0_9 {
            Ok(Framing::Identity { limit: self.body_limit })
        } else if is_set(self.headers, content_length_name()) {
            match content_length(self.headers, self.body_limit) {
                Ok(length) => Ok(Framing::ContentLength { length }),
                Err(e) => Err(e),
            }
        } else {
            Ok(Framing::Chunked { chunk_limit: Some(CHUNK_SIZE), limit: self.body_limit })
        }
    }

    /// What sending the request as it stands takes, over TLS if `secure`.
    /// TLS is set up for the URL's host, also where a relay is connected to.
    pub open spec fn transmission(self, secure: bool) -> Result<TransmissionView, Error> {
        match self.framing() {
            Ok(framing) => Ok(
                TransmissionView {
                    address: self.socket_address(),
                    tls_host: if secure {
                        Some(self.host())
                    } else {
                        None
                    },
                    head: self.proto_text(),
                    framing,
                },
            ),
            Err(e) => Err(e),
        }
    }

    /// What sending the request as it stands takes, by the URL's scheme:
    /// plain for `http`, over TLS for `https`, `InvalidUrl` for any other.
    pub open spec fn dispatch(self) -> Result<TransmissionView, Error> {
        if self.url.scheme == "http"@ {
            self.transmission(false)
        } else if self.url.scheme == "https"@ {
            self.transmission(true)
        } else {
            Err(Error::InvalidUrl)
        }
    }
}

/// An optional text as a contract sees it.
pub open spec fn text_view(text: Option<String>) -> Option<Seq<char>> {
    match text {
        Some(text) => Some(text@),
        None => None,
    }
}

/// An HTTP request: a URL, a method, a version, headers, and optionally a
/// relay to connect to in place of the URL's host and a limit on the bytes
/// of the body.
#[derive(Debug)]
pub struct Request {
    url: Url,
    method: Method,
    version: Version,
    headers: Headers,
    relay: Option<String>,
    body_limit: Option<usize>,
}

impl View for Request {
    type V = RequestView;

    closed spec fn view(&self) -> RequestView {
        RequestView {
            url: self.url@,
            method: self.method,
            version: self.version,
            headers: self.headers@,
            relay: text_view(self.relay),
            body_limit: self.body_limit,
        }
    }
}

impl Request {
    /// A `GET` request for `http://localhost` under HTTP/1.1.
    pub fn default() -> (r: Self)
        ensures
            r@ == RequestView::fresh(default_url()),
    {
        let url = match Url::parse("http://localhost") {
            Ok(url) => url,
            Err(_) => Url::localhost(),
        };
        Request {
            url,
            method: Method::Get,
            version: Version::Http1_1,
            headers: Headers::new(),
            relay: None,
            body_limit: None,
        }
    }

    /// A `GET` request for the URL that `url` spells, under HTTP/1.1;
    /// `InvalidUrl` if the text is no absolute URL.
    pub fn parse_url(url: &str) -> (r: Result<Self, Error>)
        ensures
            match r {
                Ok(request) => parsed_url(url@) matches Some(parsed) && request@
                    == RequestView::fresh(parsed),
                Err(e) => e == Error::InvalidUrl && parsed_url(url@) is None,
            },
    {
        let mut request = Request::default();
        match request.set_url_str(url) {
            Ok(()) => Ok(request),
            Err(e) => Err(e),
        }
    }

    /// The URL.
    pub fn url(&self) -> (r: &Url)
        ensures
            r@ == self@.url,
    {
        &self.url
    }

    /// The method.
    pub fn method(&self) -> (r: &Method)
        ensures
            *r == self@.method,
    {
        &self.method
    }

    /// The protocol version.
    pub fn version(&self) -> (r: &Version)
        ensures
            *r == self@.version,
    {
        &self.version
    }

    /// The headers.
    pub fn headers(&self) -> (r: &Headers)
        ensures
            r@ == self@.headers,
    {
        &self.headers
    }

    /// The value of the header called `name`.
    pub fn header(&self, name: &str) -> (r: Option<&String>)
        ensures
            match r {
                Some(value) => lookup(self@.headers, name@) == Some(value@),
                None => lookup(self@.headers, name@) is None,
            },
    {
        self.headers.get(name)
    }

    /// The address that is connected to in place of the URL's host.
    pub fn relay(&self) -> (r: &Option<String>)
        ensures
            text_view(*r) == self@.relay,
    {
        &self.relay
    }

    /// The most bytes that a body of this request may have.
    pub fn body_limit(&self) -> (r: &Option<usize>)
        ensures
            *r == self@.body_limit,
    {
        &self.body_limit
    }

    /// The headers, to be changed in place.
    pub fn headers_mut(&mut self) -> (r: &mut Headers)
        ensures
            r@ == old(self)@.headers,
            final(self)@ == (RequestView { headers: final(r)@, ..old(self)@ }),
    {
        &mut self.headers
    }

    /// Whether the method is `value`.
    pub fn has_method(&self, value: Method) -> (r: bool)
        ensures
            r == (self@.method == value),
    {
        self.method == value
    }

    /// Whether the version is `value`.
    pub fn has_version(&self, value: Version) -> (r: bool)
        ensures
            r == (self@.version == value),
    {
        self.version == value
    }

    /// Whether a header called `name` is set.
    pub fn has_header(&self, name: &str) -> (r: bool)
        ensures
            r == is_set(self@.headers, name@),
    {
        self.headers.contains_key(name)
    }

    /// Whether a body limit is set.
    pub fn has_body_limit(&self) -> (r: bool)
        ensures
            r == self@.body_limit is Some,
    {
        self.body_limit.is_some()
    }

    /// Replaces the URL.
    pub fn set_url(&mut self, value: Url)
        ensures
            final(self)@ == (RequestView { url: value@, ..old(self)@ }),
    {
        self.url = value;
    }

    /// Replaces the URL by the one that `value` spells. A text that is no
    /// absolute URL is `InvalidUrl` and leaves the request as it was.
    pub fn set_url_str(&mut self, value: &str) -> (r: Result<(), Error>)
        ensures
            match r {
                Ok(()) => parsed_url(value@) matches Some(parsed) && final(self)@ == (RequestView {
                    url: parsed,
                    ..old(self)@
                }),
                Err(e) => e == Error::InvalidUrl && parsed_url(value@) is None && final(self)@
                    == old(self)@,
            },
    {
        match Url::parse(value) {
            Ok(url) => {
                self.url = url;
                Ok(())
            },
            Err(e) => Err(e),
        }
    }

    /// Replaces the method.
    pub fn set_method(&mut self, value: Method)
        ensures
            final(self)@ == (RequestView { method: value, ..old(self)@ }),
    {
        self.method = value;
    }

    /// Replaces the method by the one that the token `value` names. An
    /// unknown token is `InvalidMethod` and leaves the request as it was.
    pub fn set_method_str(&mut self, value: &str) -> (r: Result<(), Error>)
        ensures
            match Method::from_token(value@) {
                Some(method) => r == Ok::<(), Error>(()) && final(self)@ == (RequestView {
                    method,
                    ..old(self)@
                }),
                None => r == Err::<(), Error>(Error::InvalidMethod) && final(self)@ == old(self)@,
            },
    {
        match Method::from_str(value) {
            Ok(method) => {
                self.method = method;
                Ok(())
            },
            Err(e) => Err(e),
        }
    }

    /// Replaces the version.
    pub fn set_version(&mut self, value: Version)
        ensures
            final(self)@ == (RequestView { version: value, ..old(self)@ }),
    {
        self.version = value;
    }

    /// Replaces the version by the one that the token `value` names. An
    /// unknown token is `InvalidVersion` and leaves the request as it was.
    pub fn set_version_str(&mut self, value: &str) -> (r: Result<(), Error>)
        ensures
            match Version::from_token(value@) {
                Some(version) => r == Ok::<(), Error>(()) && final(self)@ == (RequestView {
                    version,
                    ..old(self)@
                }),
                None => r == Err::<(), Error>(Error::InvalidVersion) && final(self)@ == old(
                    self,
                )@,
            },
    {
        match Version::from_str(value) {
            Ok(version) => {
                self.version = version;
                Ok(())
            },
            Err(e) => Err(e),
        }
    }

    /// Gives the header `name` the value `value`, in place of any it had.
    pub fn set_header(&mut self, name: &str, value: &str)
        ensures
            final(self)@ == old(self)@.with_header(name@, value@),
    {
        self.headers.insert(String::from_str(name), String::from_str(value));
    }

    /// Sets the address that is connected to in place of the URL's host.
    pub fn set_relay(&mut self, value: &str)
        ensures
            final(self)@ == (RequestView { relay: Some(value@), ..old(self)@ }),
    {
        self.relay = Some(String::from_str(value));
    }

    /// Sets the most bytes that a body of this request may have.
    pub fn set_body_limit(&mut self, length: usize)
        ensures
            final(self)@ == (RequestView { body_limit: Some(length), ..old(self)@ }),
    {
        self.body_limit = Some(length);
    }

    /// Removes the header called `name`, if it is set.
    pub fn remove_header(&mut self, name: &str)
        ensures
            final(self)@ == (RequestView {
                headers: discard(old(self)@.headers, name@),
                ..old(self)@
            }),
    {
        self.headers.remove(name);
    }

    /// Removes the relay: the URL's host is connected to again.
    pub fn remove_relay(&mut self)
        ensures
            final(self)@ == (RequestView { relay: None, ..old(self)@ }),
    {
        self.relay = None;
    }

    /// Removes every header.
    pub fn clear_headers(&mut self)
        ensures
            final(self)@ == (RequestView { headers: Seq::empty(), ..old(self)@ }),
    {
        self.headers.clear();
    }

    /// The host to reach: the URL's, or `localhost` where it has none.
    pub fn host(&self) -> (r: &str)
        ensures
            r@ == self@.host(),
    {
        match self.url.host_str() {
            Some(host) => host,
            None => "localhost",
        }
    }

    /// The port to reach: the URL's or its scheme's, or 80 where neither is
    /// known.
    pub fn port(&self) -> (r: u16)
        ensures
            r == self@.port(),
    {
        match self.url.port_or_known_default() {
            Some(port) => port,
            None => 80,
        }
    }

    /// Host and port as `host:port`.
    pub fn host_with_port(&self) -> (r: String)
        ensures
            r@ == self@.host_with_port(),
    {
        let mut text = String::from_str(self.host());
        text.append(":");
        text.append(format_decimal(self.port() as usize).as_str());
        text
    }

    /// The address to connect to: the relay where one is set, else the
    /// URL's host and port.
    pub fn socket_address(&self) -> (r: String)
        ensures
            r@ == self@.socket_address(),
    {
        match &self.relay {
            Some(relay) => relay.clone(),
            None => self.host_with_port(),
        }
    }

    /// The head of the request as it goes on the wire.
    pub fn to_proto_string(&self) -> (r: String)
        ensures
            r@ == self@.proto_text(),
    {
        let mut output = String::new();
        if self.version == Version::Http0_9 {
            output.append("GET ");
            output.append(self.url.resource());
            output.append("\r\n");
            assert(output@ =~= self@.proto_text());
        } else {
            output.append(self.method.to_string().as_str());
            output.append(" ");
            output.append(self.url.resource());
            output.append(" ");
            output.append(self.version.to_string().as_str());
            output.append("\r\n");
            assert(output@ =~= self@.request_line());
            write_headers(&mut output, &self.headers);
            output.append("\r\n");
        }
        output
    }

    /// Resolves the `Host` header: from HTTP/1.1 on, a request without that
    /// header gets it, as host and port.
    pub fn update_host_header(&mut self)
        ensures
            final(self)@ == old(self)@.with_host_header(),
    {
        if self.version.at_least(Version::Http1_1) && !self.has_header("Host") {
            let value = self.host_with_port();
            self.set_header("Host", value.as_str());
        }
    }

    /// Resolves the body headers: where the method carries a body and no
    /// `Content-Length` is set, `Transfer-Encoding` becomes `chunked`.
    pub fn update_body_headers(&mut self)
        ensures
            final(self)@ == old(self)@.with_body_headers(),
            old(self)@.method.carries_body() && !is_set(
                old(self)@.headers,
                content_length_name(),
            ) ==> lookup(final(self)@.headers, transfer_encoding_name()) == Some("chunked"@),
    {
        proof {
            use_type_invariant(&self.headers);
            crate::headers::lemma_put(
                self@.headers,
                transfer_encoding_name(),
                "chunked"@,
                transfer_encoding_name(),
            );
        }
        if self.version.at_least(Version::Http0_9) && self.method.has_body() && !self.has_header(
            "Content-Length",
        ) {
            self.set_header("Transfer-Encoding", "chunked");
        }
    }

    /// How the body of the request is written.
    pub fn body_framing(&self) -> (r: Result<Framing, Error>)
        ensures
            r == self@.framing(),
    {
        if self.version == Version::Http0_9 {
            Ok(Framing::Identity { limit: self.body_limit })
        } else if self.has_header("Content-Length") {
            match read_content_length(&self.headers, self.body_limit) {
                Ok(length) => Ok(Framing::ContentLength { length }),
                Err(e) => Err(e),
            }
        } else {
            Ok(Framing::Chunked { chunk_limit: Some(CHUNK_SIZE), limit: self.body_limit })
        }
    }

    /// What sending the request takes, over TLS if `secure`.
    fn transmission(&self, secure: bool) -> (r: Result<Transmission, Error>)
        ensures
            match r {
                Ok(t) => self@.transmission(secure) == Ok::<TransmissionView, Error>(t@),
                Err(e) => self@.transmission(secure) == Err::<TransmissionView, Error>(e),
            },
    {
        match self.body_framing() {
            Ok(framing) => Ok(
                Transmission {
                    address: self.socket_address(),
                    tls_host: if secure {
                        Some(String::from_str(self.host()))
                    } else {
                        None
                    },
                    head: self.to_proto_string(),
                    framing,
                },
            ),
            Err(e) => Err(e),
        }
    }

    /// What sending the request as it stands takes over a plain
    /// connection, whatever the URL's scheme. No header is resolved.
    pub fn send_http(&self) -> (r: Result<Transmission, Error>)
        ensures
            match r {
                Ok(t) => self@.transmission(false) == Ok::<TransmissionView, Error>(t@),
                Err(e) => self@.transmission(false) == Err::<TransmissionView, Error>(e),
            },
    {
        self.transmission(false)
    }

    /// What sending the request as it stands takes over TLS, whatever the
    /// URL's scheme. No header is resolved.
    pub fn send_https(&self) -> (r: Result<Transmission, Error>)
        ensures
            match r {
                Ok(t) => self@.transmission(true) == Ok::<TransmissionView, Error>(t@),
                Err(e) => self@.transmission(true) == Err::<TransmissionView, Error>(e),
            },
    {
        self.transmission(true)
    }

    /// What sending the request as it stands takes, by the URL's scheme.
    fn dispatch(&self) -> (r: Result<Transmission, Error>)
        ensures
            match r {
                Ok(t) => self@.dispatch() == Ok::<TransmissionView, Error>(t@),
                Err(e) => self@.dispatch() == Err::<TransmissionView, Error>(e),
            },
    {
        if str_eq(self.url.scheme(), "http") {
            self.send_http()
        } else if str_eq(self.url.scheme(), "https") {
            self.send_https()
        } else {
            Err(Error::InvalidUrl)
        }
    }

    /// Prepares the request to be sent without a body.
    ///
    /// The `Host` header is resolved, whatever follows. A scheme other than
    /// `http` and `https` is `InvalidUrl`; nothing is to be connected to
    /// then. The body source of the transmission is empty.
    pub fn send(&mut self) -> (r: Result<Transmission, Error>)
        ensures
            final(self)@ == old(self)@.with_host_header(),
            match r {
                Ok(t) => final(self)@.dispatch() == Ok::<TransmissionView, Error>(t@),
                Err(e) => final(self)@.dispatch() == Err::<TransmissionView, Error>(e),
            },
    {
        self.update_host_header();
        self.dispatch()
    }

    /// Prepares the request to be sent with a body that a stream yields.
    ///
    /// The `Host` header and then the body headers are resolved, whatever
    /// follows. A scheme other than `http` and `https` is `InvalidUrl`.
    pub fn send_stream(&mut self) -> (r: Result<Transmission, Error>)
        ensures
            final(self)@ == old(self)@.with_host_header().with_body_headers(),
            match r {
                Ok(t) => final(self)@.dispatch() == Ok::<TransmissionView, Error>(t@),
                Err(e) => final(self)@.dispatch() == Err::<TransmissionView, Error>(e),
            },
    {
        self.update_host_header();
        self.update_body_headers();
        self.dispatch()
    }

    /// Prepares the request to be sent with `body` as its body:
    /// `Content-Length` is set to the number of its bytes, then the request
    /// is prepared as for a stream.
    pub fn send_slice(&mut self, body: &[u8]) -> (r: Result<Transmission, Error>)
        ensures
            final(self)@ == old(self)@.with_content_length(
                body@.len() as usize,
            ).with_host_header().with_body_headers(),
            match r {
                Ok(t) => final(self)@.dispatch() == Ok::<TransmissionView, Error>(t@),
                Err(e) => final(self)@.dispatch() == Err::<TransmissionView, Error>(e),
            },
    {
        self.set_header("Content-Length", format_decimal(body.len()).as_str());
        self.send_stream()
    }

    /// Prepares the request to be sent with the bytes of `body` as its
    /// body: `Content-Length` is set to their number, then the request is
    /// prepared as for a stream.
    pub fn send_str(&mut self, body: &str) -> (r: Result<Transmission, Error>)
        ensures
            final(self)@ == old(self)@.with_content_length(
                encode_utf8(body@).len() as usize,
            ).with_host_header().with_body_headers(),
            match r {
                Ok(t) => final(self)@.dispatch() == Ok::<TransmissionView, Error>(t@),
                Err(e) => final(self)@.dispatch() == Err::<TransmissionView, Error>(e),
            },
    {
        self.set_header("Content-Length", format_decimal(body.len()).as_str());
        self.send_stream()
    }

    /// Prepares the request to be sent with a JSON value as its body.
    ///
    /// The value is written out as text, which comes back beside the
    /// transmission: it is the body to send. `Content-Length` is set to the
    /// number of its bytes, then the request is prepared as for a stream.
    pub fn send_json(&mut self, body: &serde_json::Value) -> (r: (
        String,
        Result<Transmission, Error>,
    ))
        ensures
            final(self)@ == old(self)@.with_content_length(
                encode_utf8(r.0@).len() as usize,
            ).with_host_header().with_body_headers(),
            match r.1 {
                Ok(t) => final(self)@.dispatch() == Ok::<TransmissionView, Error>(t@),
                Err(e) => final(self)@.dispatch() == Err::<TransmissionView, Error>(e),
            },
    {
        let text = json_to_string(body);
        let prepared = self.send_str(text.as_str());
        (text, prepared)
    }
}

} // verus!
