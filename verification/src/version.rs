//! The protocol version.

use crate::error::Error;
use std::str::FromStr;
use vstd::prelude::*;
use vstd::utf8::{decode_utf8, valid_utf8};

verus! {

/// An HTTP protocol version.
#[derive(Debug, Clone, Copy, PartialEq, Eq, Hash, Structural)]
pub enum Version {
    Http0_9,
    Http1_0,
    Http1_1,
    Http2_0,
    Http3_0,
}

/// Reads a version token. Trusted: `async_httplib::Version::from_str`
/// accepts the thirteen spellings that [`Version::from_token`] lists, each
/// for the version given there, and no other text.
#[verifier::external_body]
fn version_from_token(token: &str) -> (r: Result<Version, std::io::Error>)
    ensures
        r is Ok <==> Version::from_token(token@) is Some,
        r is Ok ==> Version::from_token(token@) == Some(r->Ok_0),
{
    Ok(match async_httplib::Version::from_str(token)? {
        async_httplib::Version::Http0_9 => Version::Http0_9,
        async_httplib::Version::Http1_0 => Version::Http1_0,
        async_httplib::Version::Http1_1 => Version::Http1_1,
        async_httplib::Version::Http2_0 => Version::Http2_0,
        async_httplib::Version::Http3_0 => Version::Http3_0,
    })
}

/// Reads a version token from bytes. Trusted: `async_httplib::parse_version`
/// fails on bytes that are not UTF-8 and reads the text that they encode as
/// `async_httplib::Version::from_str` does.
#[verifier::external_body]
fn version_from_bytes(data: Vec<u8>) -> (r: Result<Version, std::io::Error>)
    ensures
        r is Ok <==> Version::from_octets(data@) is Some,
        r is Ok ==> Version::from_octets(data@) == Some(r->Ok_0),
{
    Ok(match async_httplib::parse_version(data)? {
        async_httplib::Version::Http0_9 => Version::Http0_9,
        async_httplib::Version::Http1_0 => Version::Http1_0,
        async_httplib::Version::Http1_1 => Version::Http1_1,
        async_httplib::Version::Http2_0 => Version::Http2_0,
        async_httplib::Version::Http3_0 => Version::Http3_0,
    })
}

/// Writes a version as its token. Trusted: the `Display` of
/// `async_httplib::Version` writes `HTTP/0.9`, `HTTP/1.0`, `HTTP/1.1`,
/// `HTTP/2` and `HTTP/3`.
#[verifier::external_body]
fn version_to_token(version: Version) -> (r: String)
    ensures
        r@ == version.token(),
{
    match version {
        Version::Http0_9 => async_httplib::Version::Http0_9,
        Version::Http1_0 => async_httplib::Version::Http1_0,
        Version::Http1_1 => async_httplib::Version::Http1_1,
        Version::Http2_0 => async_httplib::Version::Http2_0,
        Version::Http3_0 => async_httplib::Version::Http3_0,
    }.to_string()
}

/// Whether `version` is `least` or a later one. Trusted:
/// `async_httplib::Version` is ordered by the numbers 9, 10, 11, 20 and 30
/// that its five variants are declared with.
#[verifier::external_body]
fn version_at_least(version: Version, least: Version) -> (r: bool)
    ensures
        r == (version.number() >= least.number()),
{
    let outside = |v: Version| match v {
        Version::Http0_9 => async_httplib::Version::Http0_9,
        Version::Http1_0 => async_httplib::Version::Http1_0,
        Version::Http1_1 => async_httplib::Version::Http1_1,
        Version::Http2_0 => async_httplib::Version::Http2_0,
        Version::Http3_0 => async_httplib::Version::Http3_0,
    };
    outside(version) >= outside(least)
}

impl Version {
    /// The token that stands for the version in a start line.
    pub open spec fn token(self) -> Seq<char> {
        match self {
            Version::Http0_9 => "HTTP/0.9"@,
            Version::Http1_0 => "HTTP/1.0"@,
            Version::Http1_1 => "HTTP/1.1"@,
            Version::Http2_0 => "HTTP/2"@,
            Version::Http3_0 => "HTTP/3"@,
        }
    }

    /// The number by which versions are ordered.
    pub open spec fn number(self) -> int {
        match self {
            Version::Http0_9 => 9,
            Version::Http1_0 => 10,
            Version::Http1_1 => 11,
            Version::Http2_0 => 20,
            Version::Http3_0 => 30,
        }
    }

    /// The version that a token stands for. Besides the token written in a
    /// start line, the bare number is read, and `1`, `2` and `3` too.
    pub open spec fn from_token(token: Seq<char>) -> Option<Version> {
        if token == "HTTP/0.9"@ || token == "0.9"@ {
            Some(Version::Http0_9)
        } else if token == "HTTP/1.0"@ || token == "1.0"@ {
            Some(Version::Http1_0)
        } else if token == "HTTP/1.1"@ || token == "1.1"@ || token == "1"@ {
            Some(Version::Http1_1)
        } else if token == "HTTP/2"@ || token == "2.0"@ || token == "2"@ {
            Some(Version::Http2_0)
        } else if token == "HTTP/3"@ || token == "3.0"@ || token == "3"@ {
            Some(Version::Http3_0)
        } else {
            None
        }
    }

    /// The version that the bytes of a token stand for: none unless the
    /// bytes are UTF-8.
    pub open spec fn from_octets(data: Seq<u8>) -> Option<Version> {
        if valid_utf8(data) {
            Version::from_token(decode_utf8(data))
        } else {
            None
        }
    }

    /// Every version is the one that its own token stands for.
    pub proof fn lemma_token_round_trip(self)
        ensures
            Version::from_token(self.token()) == Some(self),
    {
        reveal_strlit("HTTP/0.9");
        reveal_strlit("HTTP/1.0");
        reveal_strlit("HTTP/1.1");
        reveal_strlit("HTTP/2");
        reveal_strlit("HTTP/3");
        reveal_strlit("0.9");
        reveal_strlit("1.0");
        reveal_strlit("1.1");
        reveal_strlit("2.0");
        reveal_strlit("3.0");
        reveal_strlit("1");
        reveal_strlit("2");
        reveal_strlit("3");
        assert("HTTP/0.9"@.len() == 8 && "HTTP/1.0"@.len() == 8 && "HTTP/1.1"@.len() == 8);
        assert("HTTP/2"@.len() == 6 && "HTTP/3"@.len() == 6);
        assert("0.9"@.len() == 3 && "1.0"@.len() == 3 && "1.1"@.len() == 3);
        assert("2.0"@.len() == 3 && "3.0"@.len() == 3);
        assert("1"@.len() == 1 && "2"@.len() == 1 && "3"@.len() == 1);
        assert("HTTP/0.9"@[5] != "HTTP/1.0"@[5] && "HTTP/0.9"@[5] != "HTTP/1.1"@[5]);
        assert("HTTP/1.0"@[7] != "HTTP/1.1"@[7]);
        assert("HTTP/2"@[5] != "HTTP/3"@[5]);
    }

    /// Reads a version from its token.
    pub fn from_str(token: &str) -> (r: Result<Version, Error>)
        ensures
            r == match Version::from_token(token@) {
                Some(version) => Ok::<Version, Error>(version),
                None => Err(Error::InvalidVersion),
            },
    {
        match version_from_token(token) {
            Ok(version) => Ok(version),
            Err(_) => Err(Error::InvalidVersion),
        }
    }

    /// Reads a version from the bytes of its token, as they stand in a
    /// status line.
    pub fn from_bytes(data: Vec<u8>) -> (r: Result<Version, Error>)
        ensures
            r == match Version::from_octets(data@) {
                Some(version) => Ok::<Version, Error>(version),
                None => Err(Error::InvalidVersion),
            },
    {
        match version_from_bytes(data) {
            Ok(version) => Ok(version),
            Err(_) => Err(Error::InvalidVersion),
        }
    }

    /// The version's token as text.
    pub fn to_string(&self) -> (r: String)
        ensures
            r@ == self.token(),
    {
        version_to_token(*self)
    }

    /// Whether this version is `least` or a later one.
    pub fn at_least(&self, least: Version) -> (r: bool)
        ensures
            r == (self.number() >= least.number()),
    {
        version_at_least(*self, least)
    }
}

} // verus!
