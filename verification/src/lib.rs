//! An HTTP/1.x client engine that never touches a socket itself.
//!
//! A [`Request`] turns a URL, a method, a version and a set of headers into
//! a [`Transmission`]: where to connect, what to write first and how the body
//! is framed on the wire. A [`Response`] is assembled line by line from what
//! the peer answered and decides how its body is to be read. Whoever owns the
//! connection carries those decisions out.

pub mod address;
pub mod error;
pub mod framing;
pub mod headers;
pub mod json;
pub mod laws;
pub mod method;
pub mod request;
pub mod response;
pub mod status;
pub mod text;
pub mod utils;
pub mod version;
pub mod wire;

pub use address::Url;
pub use error::{Error, Stage};
pub use framing::{Framing, Transmission};
pub use headers::Headers;
pub use method::Method;
pub use request::Request;
pub use response::{Progress, Response};
pub use status::Status;
pub use utils::{read_content_length, read_transfer_encoding};
pub use version::Version;
