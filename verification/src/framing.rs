//! How a body is framed on the wire, and what has to be done to send a
//! request.

use vstd::prelude::*;

verus! {

/// The framing of a message body: how its length is told to the peer, and
/// the limits under which it is transferred.
#[derive(Debug, Clone, Copy, PartialEq, Eq, Hash, Structural)]
pub enum Framing {
    /// The body is all that its source yields. With a `limit`, a source that
    /// yields more than `limit` bytes is refused.
    Identity { limit: Option<usize> },
    /// The body is exactly `length` bytes.
    ContentLength { length: usize },
    /// The body is a run of chunks, each after a line with its size in
    /// hexadecimal, ended by a chunk of size zero.
    ///
    /// On writing, `chunk_limit` is the most body bytes that one chunk
    /// carries; on reading, it is the most bytes that one chunk-size line may
    /// take. `limit` bounds the bytes of the whole body.
    Chunked { chunk_limit: Option<usize>, limit: Option<usize> },
}

/// The most body bytes that a chunk of a request carries.
pub const CHUNK_SIZE: usize = 1024;

/// A [`Transmission`] as a contract sees it.
pub struct TransmissionView {
    pub address: Seq<char>,
    pub tls_host: Option<Seq<char>>,
    pub head: Seq<char>,
    pub framing: Framing,
}

/// What has to be done to send a request, in this order: connect to
/// `address`; where `tls_host` is set, upgrade the stream to TLS for that
/// host name; write `head`; write the body under `framing`; flush.
#[derive(Debug, Clone)]
pub struct Transmission {
    /// The socket address to connect to, as `host:port`.
    pub address: String,
    /// The host name to validate the certificate against, for `https`.
    pub tls_host: Option<String>,
    /// The request line and the header block, as they go on the wire.
    pub head: String,
    /// How the body is written.
    pub framing: Framing,
}

impl View for Transmission {
    type V = TransmissionView;

    open spec fn view(&self) -> TransmissionView {
        TransmissionView {
            address: self.address@,
            tls_host: match self.tls_host {
                Some(host) => Some(host@),
                None => None,
            },
            head: self.head@,
            framing: self.framing,
        }
    }
}

} // verus!
