//! The response: what the server answered, and how its body is to be read.

use crate::error::Error;
use crate::framing::Framing;
use crate::headers::{discard, is_set, lookup, put, Field, Headers};
use crate::json::{empty_object, is_json, json_from_slice};
use crate::status::{status_number_of_octets, status_number_of_token, status_of_reading, Status};
use crate::text::{decimal, str_eq, utf8_to_string};
use crate::utils::{
    content_length,
    content_length_name,
    read_content_length,
    read_transfer_encoding,
    transfer_encoding,
};
use crate::version::Version;
use crate::wire::{header_block, write_headers};
use vstd::prelude::*;
use vstd::utf8::{decode_utf8, valid_utf8};

verus! {

/// A [`Response`] as a contract sees it.
pub struct ResponseView {
    pub status: Status,
    pub version: Version,
    pub headers: Seq<Field>,
    pub chunkline_limit: Option<usize>,
    pub body_limit: Option<usize>,
}

/// Whether the head of a response is still being read.
#[derive(Debug, Clone, Copy, PartialEq, Eq, Hash, Structural)]
pub enum Progress {
    /// A header was taken in; the next header line is to be read.
    More,
    /// The empty line came: the head is complete and the body follows.
    Complete,
}

impl ResponseView {
    /// A response of which nothing is known yet: `200`, HTTP/1.1, no
    /// header, no limit.
    pub open spec fn fresh() -> ResponseView {
        ResponseView {
            status: Status::Okay,
            version: Version::Http1_1,
            headers: Seq::empty(),
            chunkline_limit: None,
            body_limit: None,
        }
    }

    /// The status line: version, status code and reason phrase.
    pub open spec fn status_line(self) -> Seq<char> {
        self.version.token() + " "@ + decimal(self.status.number() as nat) + " "@
            + self.status.phrase() + "\r\n"@
    }

    /// The head of the response on the wire. Under HTTP/0.9 there is none;
    /// else it is the status line, the header block and an empty line.
    pub open spec fn proto_text(self) -> Seq<char> {
        if self.version is Http0_9 {
            Seq::empty()
        } else {
            self.status_line() + header_block(self.headers) + "\r\n"@
        }
    }

    /// The response after the header `name` was given `value`.
    pub open spec fn with_header(self, name: Seq<char>, value: Seq<char>) -> ResponseView {
        ResponseView { headers: put(self.headers, name, value), ..self }
    }

    /// How the body is read, `None` where there is no body to read.
    ///
    /// Where `Transfer-Encoding` is exactly `chunked`, in chunks, under
    /// both limits. Else, where `Content-Length` is set, exactly the
    /// declared number of bytes: a declaration above the body limit is
    /// `LimitExceeded`, one that is no number is `InvalidData`. Else nothing
    /// is read: a body that only the end of the stream delimits is not
    /// supported, and is taken to be empty.
    pub open spec fn framing(self) -> Result<Option<Framing>, Error> {
        if transfer_encoding(self.headers) == "chunked"@ {
            Ok(Some(Framing::Chunked { chunk_limit: self.chunkline_limit, limit: self.body_limit }))
        } else if is_set(self.headers, content_length_name()) {
            match content_length(self.headers, self.body_limit) {
                Ok(length) => Ok(Some(Framing::ContentLength { length })),
                Err(e) => Err(e),
            }
        } else {
            Ok(None)
        }
    }

    /// The response that a status line opens. The version is read first:
    /// a token that names none is `InvalidVersion`. Then the status: a
    /// token that names none is `InvalidStatus`.
    pub open spec fn opened(version: Seq<u8>, status: Seq<u8>) -> Result<ResponseView, Error> {
        match Version::from_octets(version) {
            Some(version) => match status_of_reading(status_number_of_octets(status)) {
                Ok(status) => Ok(ResponseView { status, version, ..ResponseView::fresh() }),
                Err(e) => Err(e),
            },
            None => Err(Error::InvalidVersion),
        }
    }

    /// The response after one more header line.
    ///
    /// A line with an empty name ends the head and changes nothing. Any
    /// other line sets a header; its name and its value must be UTF-8, else
    /// the line is `InvalidHeader`.
    pub open spec fn after_header_line(self, name: Seq<u8>, value: Seq<u8>) -> Result<
        (ResponseView, Progress),
        Error,
    > {
        if name.len() == 0 {
            Ok((self, Progress::Complete))
        } else if valid_utf8(name) && valid_utf8(value) {
            Ok((self.with_header(decode_utf8(name), decode_utf8(value)), Progress::More))
        } else {
            Err(Error::InvalidHeader)
        }
    }
}

/// A received body as text: the characters that the bytes encode, or
/// `InvalidData` where the bytes are not UTF-8.
pub open spec fn body_text(data: Seq<u8>) -> Result<Seq<char>, Error> {
    if valid_utf8(data) {
        Ok(decode_utf8(data))
    } else {
        Err(Error::InvalidData)
    }
}

/// The bytes that are read as JSON for a received body: the body itself,
/// or an empty object in place of an empty body.
pub open spec fn json_source(data: Seq<u8>) -> Seq<u8> {
    if data.len() == 0 {
        empty_object()
    } else {
        data
    }
}

/// An HTTP response: status, version and headers, with the limits under
/// which its body is read.
///
/// The response does not hold the connection. It decides how the body is
/// to be read from it; the reading is done by whoever holds the stream.
#[derive(Debug)]
pub struct Response {
    status: Status,
    version: Version,
    headers: Headers,
    chunkline_limit: Option<usize>,
    body_limit: Option<usize>,
}

impl View for Response {
    type V = ResponseView;

    closed spec fn view(&self) -> ResponseView {
        ResponseView {
            status: self.status,
            version: self.version,
            headers: self.headers@,
            chunkline_limit: self.chunkline_limit,
            body_limit: self.body_limit,
        }
    }
}

impl Response {
    /// A `200` response under HTTP/1.1, without headers or limits.
    pub fn default() -> (r: Self)
        ensures
            r@ == ResponseView::fresh(),
    {
        Response {
            status: Status::Okay,
            version: Version::Http1_1,
            headers: Headers::new(),
            chunkline_limit: None,
            body_limit: None,
        }
    }

    /// Opens a response from the version and status tokens of its status
    /// line.
    pub fn open(version: Vec<u8>, status: Vec<u8>) -> (r: Result<Self, Error>)
        ensures
            match r {
                Ok(response) => ResponseView::opened(version@, status@) == Ok::<
                    ResponseView,
                    Error,
                >(response@),
                Err(e) => ResponseView::opened(version@, status@) == Err::<ResponseView, Error>(e),
            },
    {
        let mut response = Response::default();
        match Version::from_bytes(version) {
            Ok(version) => {
                response.set_version(version);
            },
            Err(e) => {
                return Err(e);
            },
        }
        match Status::from_bytes(status) {
            Ok(status) => {
                response.set_status(status);
            },
            Err(e) => {
                return Err(e);
            },
        }
        Ok(response)
    }

    /// Takes in the next header line of the head, as name and value.
    ///
    /// A line with an empty name ends the head. Any other line sets a
    /// header; where its name or its value is not UTF-8, the line is
    /// `InvalidHeader` and the response stays as it was.
    pub fn read_header(&mut self, name: Vec<u8>, value: Vec<u8>) -> (r: Result<Progress, Error>)
        ensures
            match r {
                Ok(progress) => old(self)@.after_header_line(name@, value@) == Ok::<
                    (ResponseView, Progress),
                    Error,
                >((final(self)@, progress)),
                Err(e) => old(self)@.after_header_line(name@, value@) == Err::<
                    (ResponseView, Progress),
                    Error,
                >(e) && final(self)@ == old(self)@,
            },
    {
        if name.len() == 0 {
            return Ok(Progress::Complete);
        }
        let name = match utf8_to_string(name) {
            Some(name) => name,
            None => {
                return Err(Error::InvalidHeader);
            },
        };
        let value = match utf8_to_string(value) {
            Some(value) => value,
            None => {
                return Err(Error::InvalidHeader);
            },
        };
        self.set_header(name.as_str(), value.as_str());
        Ok(Progress::More)
    }

    /// The status.
    pub fn status(&self) -> (r: &Status)
        ensures
            *r == self@.status,
    {
        &self.status
    }

    /// The protocol version.
    pub fn version(&self) -> (r: &Version)
        ensures
            *r == self@.version,
    {
        &self.version
    }

    /// The headers.
    pub fn headers(&self) -> (r: &Headers)
        ensures
            r@ == self@.headers,
    {
        &self.headers
    }

    /// The value of the header called `name`.
    pub fn header(&self, name: &str) -> (r: Option<&String>)
        ensures
            match r {
                Some(value) => lookup(self@.headers, name@) == Some(value@),
                None => lookup(self@.headers, name@) is None,
            },
    {
        self.headers.get(name)
    }

    /// The most bytes that one chunk-size line of the body may take.
    pub fn chunkline_limit(&self) -> (r: &Option<usize>)
        ensures
            *r == self@.chunkline_limit,
    {
        &self.chunkline_limit
    }

    /// The most bytes that the body may have.
    pub fn body_limit(&self) -> (r: &Option<usize>)
        ensures
            *r == self@.body_limit,
    {
        &self.body_limit
    }

    /// Whether the status is `value`.
    pub fn has_status(&self, value: Status) -> (r: bool)
        ensures
            r == (self@.status == value),
    {
        self.status == value
    }

    /// Whether the version is `value`.
    pub fn has_version(&self, value: Version) -> (r: bool)
        ensures
            r == (self@.version == value),
    {
        self.version == value
    }

    /// Whether any header is set.
    pub fn has_headers(&self) -> (r: bool)
        ensures
            r == (self@.headers.len() > 0),
    {
        !self.headers.is_empty()
    }

    /// Whether a header called `name` is set.
    pub fn has_header(&self, name: &str) -> (r: bool)
        ensures
            r == is_set(self@.headers, name@),
    {
        self.headers.contains_key(name)
    }

    /// Whether a limit on chunk-size lines is set.
    pub fn has_chunkline_limit(&self) -> (r: bool)
        ensures
            r == self@.chunkline_limit is Some,
    {
        self.chunkline_limit.is_some()
    }

    /// Whether a body limit is set.
    pub fn has_body_limit(&self) -> (r: bool)
        ensures
            r == self@.body_limit is Some,
    {
        self.body_limit.is_some()
    }

    /// Replaces the status.
    pub fn set_status(&mut self, value: Status)
        ensures
            final(self)@ == (ResponseView { status: value, ..old(self)@ }),
    {
        self.status = value;
    }

    /// Replaces the status by the one whose code `value` spells. A text
    /// that spells no status code is `InvalidStatus` and leaves the response
    /// as it was.
    pub fn set_status_str(&mut self, value: &str) -> (r: Result<(), Error>)
        ensures
            match status_of_reading(status_number_of_token(value@)) {
                Ok(status) => r == Ok::<(), Error>(()) && final(self)@ == (ResponseView {
                    status,
                    ..old(self)@
                }),
                Err(e) => r == Err::<(), Error>(e) && final(self)@ == old(self)@,
            },
    {
        match Status::from_str(value) {
            Ok(status) => {
                self.status = status;
                Ok(())
            },
            Err(e) => Err(e),
        }
    }

    /// Replaces the version.
    pub fn set_version(&mut self, value: Version)
        ensures
            final(self)@ == (ResponseView { version: value, ..old(self)@ }),
    {
        self.version = value;
    }

    /// Replaces the version by the one that the token `value` names. An
    /// unknown token is `InvalidVersion` and leaves the response as it was.
    pub fn set_version_str(&mut self, value: &str) -> (r: Result<(), Error>)
        ensures
            match Version::from_token(value@) {
                Some(version) => r == Ok::<(), Error>(()) && final(self)@ == (ResponseView {
                    version,
                    ..old(self)@
                }),
                None => r == Err::<(), Error>(Error::InvalidVersion) && final(self)@ == old(
                    self,
                )@,
            },
    {
        match Version::from_str(value) {
            Ok(version) => {
                self.version = version;
                Ok(())
            },
            Err(e) => Err(e),
        }
    }

    /// Gives the header `name` the value `value`, in place of any it had.
    pub fn set_header(&mut self, name: &str, value: &str)
        ensures
            final(self)@ == old(self)@.with_header(name@, value@),
    {
        self.headers.insert(String::from_str(name), String::from_str(value));
    }

    /// Sets the most bytes that one chunk-size line of the body may take.
    pub fn set_chunkline_limit(&mut self, length: usize)
        ensures
            final(self)@ == (ResponseView { chunkline_limit: Some(length), ..old(self)@ }),
    {
        self.chunkline_limit = Some(length);
    }

    /// Sets the most bytes that the body may have.
    pub fn set_body_limit(&mut self, length: usize)
        ensures
            final(self)@ == (ResponseView { body_limit: Some(length), ..old(self)@ }),
    {
        self.body_limit = Some(length);
    }

    /// Removes the header called `name`, if it is set.
    pub fn remove_header(&mut self, name: &str)
        ensures
            final(self)@ == (ResponseView {
                headers: discard(old(self)@.headers, name@),
                ..old(self)@
            }),
    {
        self.headers.remove(name);
    }

    /// Removes every header.
    pub fn clear_headers(&mut self)
        ensures
            final(self)@ == (ResponseView { headers: Seq::empty(), ..old(self)@ }),
    {
        self.headers.clear();
    }

    /// The head of the response as it goes on the wire.
    pub fn to_proto_string(&self) -> (r: String)
        ensures
            r@ == self@.proto_text(),
    {
        let mut output = String::new();
        if !self.has_version(Version::Http0_9) {
            output.append(self.version.to_string().as_str());
            output.append(" ");
            output.append(self.status.to_string().as_str());
            output.append(" ");
            output.append(self.status.reason().as_str());
            output.append("\r\n");
            assert(output@ =~= self@.status_line());
            write_headers(&mut output, &self.headers);
            output.append("\r\n");
        }
        output
    }

    /// How the body is to be received: the framing under which it is read
    /// from the stream, or `None` where nothing is to be read and the body
    /// is empty.
    pub fn recv(&self) -> (r: Result<Option<Framing>, Error>)
        ensures
            r == self@.framing(),
    {
        if str_eq(read_transfer_encoding(&self.headers), "chunked") {
            Ok(
                Some(
                    Framing::Chunked { chunk_limit: self.chunkline_limit, limit: self.body_limit },
                ),
            )
        } else if self.has_header("Content-Length") {
            match read_content_length(&self.headers, self.body_limit) {
                Ok(length) => Ok(Some(Framing::ContentLength { length })),
                Err(e) => Err(e),
            }
        } else {
            Ok(None)
        }
    }

    /// A received body as text; `InvalidData` where it is not UTF-8.
    pub fn recv_string(data: Vec<u8>) -> (r: Result<String, Error>)
        ensures
            match r {
                Ok(text) => body_text(data@) == Ok::<Seq<char>, Error>(text@),
                Err(e) => body_text(data@) == Err::<Seq<char>, Error>(e),
            },
    {
        match utf8_to_string(data) {
            Some(text) => Ok(text),
            None => Err(Error::InvalidData),
        }
    }

    /// A received body as a JSON value. An empty body is read as the empty
    /// object; a body that is no JSON is `InvalidData`.
    pub fn recv_json(data: Vec<u8>) -> (r: Result<serde_json::Value, Error>)
        ensures
            r is Ok <==> is_json(json_source(data@)),
            r is Err ==> r == Err::<serde_json::Value, Error>(Error::InvalidData),
            data@.len() == 0 ==> r is Ok,
    {
        let mut data = data;
        if data.len() == 0 {
            data.push(123u8);
            data.push(125u8);
            assert(data@ =~= empty_object());
        }
        match json_from_slice(data.as_slice()) {
            Some(value) => Ok(value),
            None => Err(Error::InvalidData),
        }
    }
}

} // verus!
