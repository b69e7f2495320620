//! The request method.

use crate::error::Error;
use std::str::FromStr;
use vstd::prelude::*;

verus! {

/// An HTTP request method.
#[derive(Debug, Clone, Copy, PartialEq, Eq, Hash, Structural)]
pub enum Method {
    Get,
    Head,
    Post,
    Put,
    Delete,
    Connect,
    Options,
    Trace,
    Patch,
}

/// Reads a method token. Trusted: `async_httplib::Method::from_str` accepts
/// exactly the nine upper-case method names and yields the method so named.
#[verifier::external_body]
fn method_from_token(token: &str) -> (r: Result<Method, std::io::Error>)
    ensures
        r is Ok <==> Method::from_token(token@) is Some,
        r is Ok ==> Method::from_token(token@) == Some(r->Ok_0),
{
    Ok(match async_httplib::Method::from_str(token)? {
        async_httplib::Method::Get => Method::Get,
        async_httplib::Method::Head => Method::Head,
        async_httplib::Method::Post => Method::Post,
        async_httplib::Method::Put => Method::Put,
        async_httplib::Method::Delete => Method::Delete,
        async_httplib::Method::Connect => Method::Connect,
        async_httplib::Method::Options => Method::Options,
        async_httplib::Method::Trace => Method::Trace,
        async_httplib::Method::Patch => Method::Patch,
    })
}

/// Writes a method as its token. Trusted: the `Display` of
/// `async_httplib::Method` writes the method's upper-case name.
#[verifier::external_body]
fn method_to_token(method: Method) -> (r: String)
    ensures
        r@ == method.token(),
{
    match method {
        Method::Get => async_httplib::Method::Get,
        Method::Head => async_httplib::Method::Head,
        Method::Post => async_httplib::Method::Post,
        Method::Put => async_httplib::Method::Put,
        Method::Delete => async_httplib::Method::Delete,
        Method::Connect => async_httplib::Method::Connect,
        Method::Options => async_httplib::Method::Options,
        Method::Trace => async_httplib::Method::Trace,
        Method::Patch => async_httplib::Method::Patch,
    }.to_string()
}

/// Whether a request of this method carries a body. Trusted:
/// `async_httplib::Method::has_body` holds of POST, PUT, DELETE and PATCH and
/// of no other method.
#[verifier::external_body]
fn method_has_body(method: Method) -> (r: bool)
    ensures
        r == method.carries_body(),
{
    match method {
        Method::Get => async_httplib::Method::Get,
        Method::Head => async_httplib::Method::Head,
        Method::Post => async_httplib::Method::Post,
        Method::Put => async_httplib::Method::Put,
        Method::Delete => async_httplib::Method::Delete,
        Method::Connect => async_httplib::Method::Connect,
        Method::Options => async_httplib::Method::Options,
        Method::Trace => async_httplib::Method::Trace,
        Method::Patch => async_httplib::Method::Patch,
    }.has_body()
}

impl Method {
    /// The token that stands for the method in a request line.
    pub open spec fn token(self) -> Seq<char> {
        match self {
            Method::Get => "GET"@,
            Method::Head => "HEAD"@,
            Method::Post => "POST"@,
            Method::Put => "PUT"@,
            Method::Delete => "DELETE"@,
            Method::Connect => "CONNECT"@,
            Method::Options => "OPTIONS"@,
            Method::Trace => "TRACE"@,
            Method::Patch => "PATCH"@,
        }
    }

    /// The method that a token stands for. Tokens are matched exactly, so
    /// `get` stands for none.
    pub open spec fn from_token(token: Seq<char>) -> Option<Method> {
        if token == Method::Get.token() {
            Some(Method::Get)
        } else if token == Method::Head.token() {
            Some(Method::Head)
        } else if token == Method::Post.token() {
            Some(Method::Post)
        } else if token == Method::Put.token() {
            Some(Method::Put)
        } else if token == Method::Delete.token() {
            Some(Method::Delete)
        } else if token == Method::Connect.token() {
            Some(Method::Connect)
        } else if token == Method::Options.token() {
            Some(Method::Options)
        } else if token == Method::Trace.token() {
            Some(Method::Trace)
        } else if token == Method::Patch.token() {
            Some(Method::Patch)
        } else {
            None
        }
    }

    /// Whether a request of this method carries a body.
    pub open spec fn carries_body(self) -> bool {
        self is Post || self is Put || self is Delete || self is Patch
    }

    /// Every method is the one that its own token stands for.
    pub proof fn lemma_token_round_trip(self)
        ensures
            Method::from_token(self.token()) == Some(self),
    {
        reveal_strlit("GET");
        reveal_strlit("HEAD");
        reveal_strlit("POST");
        reveal_strlit("PUT");
        reveal_strlit("DELETE");
        reveal_strlit("CONNECT");
        reveal_strlit("OPTIONS");
        reveal_strlit("TRACE");
        reveal_strlit("PATCH");
        assert("GET"@.len() == 3 && "PUT"@.len() == 3 && "GET"@[0] != "PUT"@[0]);
        assert("HEAD"@.len() == 4 && "POST"@.len() == 4 && "HEAD"@[0] != "POST"@[0]);
        assert("TRACE"@.len() == 5 && "PATCH"@.len() == 5 && "TRACE"@[0] != "PATCH"@[0]);
        assert("DELETE"@.len() == 6);
        assert("CONNECT"@.len() == 7 && "OPTIONS"@.len() == 7 && "CONNECT"@[0] != "OPTIONS"@[0]);
    }

    /// Reads a method from its token.
    pub fn from_str(token: &str) -> (r: Result<Method, Error>)
        ensures
            r == match Method::from_token(token@) {
                Some(method) => Ok::<Method, Error>(method),
                None => Err(Error::InvalidMethod),
            },
    {
        match method_from_token(token) {
            Ok(method) => Ok(method),
            Err(_) => Err(Error::InvalidMethod),
        }
    }

    /// The method's token as text.
    pub fn to_string(&self) -> (r: String)
        ensures
            r@ == self.token(),
    {
        method_to_token(*self)
    }

    /// Whether a request of this method carries a body: POST, PUT, DELETE
    /// and PATCH do.
    pub fn has_body(&self) -> (r: bool)
        ensures
            r == self.carries_body(),
    {
        method_has_body(*self)
    }
}

} // verus!
