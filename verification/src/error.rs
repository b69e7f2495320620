//! The error kinds of an exchange.

use vstd::prelude::*;

verus! {

/// The error type of `std::io` and of the HTTP helper crate. Nothing is known
/// of a value of it; it is only mapped onto an [`Error`].
#[verifier::external_type_specification]
#[verifier::external_body]
pub struct ExIoError(std::io::Error);

/// Why an exchange, or the preparation of one, was given up.
///
/// The kinds are flat: each failure is reported as exactly one of them.
#[derive(Debug, Clone, Copy, PartialEq, Eq, Hash, Structural)]
pub enum Error {
    /// The text is no absolute URL, or its scheme is neither `http` nor `https`.
    InvalidUrl,
    /// The token names no HTTP method.
    InvalidMethod,
    /// The token names no HTTP version.
    InvalidVersion,
    /// The token names no HTTP status.
    InvalidStatus,
    /// A value handed to the engine cannot be used.
    InvalidInput,
    /// A header name or value is not valid UTF-8.
    InvalidHeader,
    /// Received or declared data cannot be decoded.
    InvalidData,
    /// The connection, or its TLS upgrade, could not be established.
    UnableToConnect,
    /// The stream failed while it was read.
    UnableToRead,
    /// The stream failed while it was written or flushed.
    UnableToWrite,
    /// A configured byte limit is smaller than what had to pass.
    LimitExceeded,
}

/// The part of an exchange during which the transport or the wire codec
/// failed.
#[derive(Debug, Clone, Copy, PartialEq, Eq, Hash, Structural)]
pub enum Stage {
    /// Resolving the address, connecting, or upgrading to TLS.
    Connect,
    /// Writing the request line and the headers.
    WriteHead,
    /// Writing the body, or flushing after it.
    WriteBody,
    /// Reading the status line.
    ReadStatusLine,
    /// Reading a header line.
    ReadHeaderLine,
    /// Reading the body.
    ReadBody,
}

/// Whether an I/O error says that the data was refused, rather than that the
/// stream failed: whether `std::io::Error::kind` gives `InvalidData`.
#[verifier::external_body]
fn refuses_data(error: &std::io::Error) -> bool {
    matches!(error.kind(), std::io::ErrorKind::InvalidData)
}

impl Error {
    /// The kind of a failure of the transport or the wire codec.
    ///
    /// A stream that failed is `UnableToConnect`, `UnableToWrite` or
    /// `UnableToRead`, by the stage. Data that the codec `refused` is
    /// `LimitExceeded` while the body is written, where the only thing to
    /// refuse is a body beyond its limit; `InvalidHeader` in a header line;
    /// `InvalidData` in the status line and in the body that is read.
    pub open spec fn of_failure(stage: Stage, refused: bool) -> Error {
        match stage {
            Stage::Connect => Error::UnableToConnect,
            Stage::WriteHead => Error::UnableToWrite,
            Stage::WriteBody => if refused {
                Error::LimitExceeded
            } else {
                Error::UnableToWrite
            },
            Stage::ReadStatusLine => if refused {
                Error::InvalidData
            } else {
                Error::UnableToRead
            },
            Stage::ReadHeaderLine => if refused {
                Error::InvalidHeader
            } else {
                Error::UnableToRead
            },
            Stage::ReadBody => if refused {
                Error::InvalidData
            } else {
                Error::UnableToRead
            },
        }
    }

    /// The kind of a failure at `stage`: of data that was `refused`, or of
    /// a stream that failed.
    pub fn failure(stage: Stage, refused: bool) -> (r: Error)
        ensures
            r == Error::of_failure(stage, refused),
    {
        match stage {
            Stage::Connect => Error::UnableToConnect,
            Stage::WriteHead => Error::UnableToWrite,
            Stage::WriteBody => if refused {
                Error::LimitExceeded
            } else {
                Error::UnableToWrite
            },
            Stage::ReadStatusLine => if refused {
                Error::InvalidData
            } else {
                Error::UnableToRead
            },
            Stage::ReadHeaderLine => if refused {
                Error::InvalidHeader
            } else {
                Error::UnableToRead
            },
            Stage::ReadBody => if refused {
                Error::InvalidData
            } else {
                Error::UnableToRead
            },
        }
    }

    /// The kind of the I/O error with which the transport or the wire codec
    /// failed at `stage`. Every such error is one kind, fixed by the stage
    /// and by whether the error reports refused data.
    pub fn from_io(stage: Stage, error: &std::io::Error) -> (r: Error)
        ensures
            r == Error::of_failure(stage, true) || r == Error::of_failure(stage, false),
    {
        Error::failure(stage, refuses_data(error))
    }
}

} // verus!
