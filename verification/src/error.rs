//! Errors that a request can end in.

use vstd::prelude::*;

pub mod details;

use crate::error::details::{ADUParseError, ExceptionCode, InternalError, InvalidRequest};

verus! {

/// Why the transport under a connection failed.
#[derive(Clone, Copy, Debug, PartialEq, Eq, Structural)]
pub enum IoReason {
    ConnectionRefused,
    ConnectionReset,
    ConnectionAborted,
    BrokenPipe,
    UnexpectedEof,
    Other,
}

/// Outcome of a request that did not succeed.
#[derive(Clone, Copy, Debug, PartialEq, Eq, Structural)]
pub enum Error {
    /// The underlying stream failed.
    Transport(IoReason),
    /// The server answered with a Modbus exception.
    Exception(ExceptionCode),
    /// The request was rejected before anything was sent.
    BadRequest(InvalidRequest),
    /// The bytes received could not be decoded.
    BadResponse(ADUParseError),
    /// An invariant of the library itself was violated.
    Internal(InternalError),
    /// No response arrived before the deadline.
    ResponseTimeout,
    /// The channel has terminated.
    Shutdown,
}

impl From<InvalidRequest> for Error {
    fn from(err: InvalidRequest) -> (r: Error) {
        Error::BadRequest(err)
    }
}

impl vstd::std_specs::convert::FromSpecImpl<InvalidRequest> for Error {
    open spec fn obeys_from_spec() -> bool {
        true
    }

    open spec fn from_spec(err: InvalidRequest) -> Error {
        Error::BadRequest(err)
    }
}

impl From<ADUParseError> for Error {
    fn from(err: ADUParseError) -> (r: Error) {
        Error::BadResponse(err)
    }
}

impl vstd::std_specs::convert::FromSpecImpl<ADUParseError> for Error {
    open spec fn obeys_from_spec() -> bool {
        true
    }

    open spec fn from_spec(err: ADUParseError) -> Error {
        Error::BadResponse(err)
    }
}

impl From<InternalError> for Error {
    fn from(err: InternalError) -> (r: Error) {
        Error::Internal(err)
    }
}

impl vstd::std_specs::convert::FromSpecImpl<InternalError> for Error {
    open spec fn obeys_from_spec() -> bool {
        true
    }

    open spec fn from_spec(err: InternalError) -> Error {
        Error::Internal(err)
    }
}

impl From<ExceptionCode> for Error {
    fn from(err: ExceptionCode) -> (r: Error) {
        Error::Exception(err)
    }
}

impl vstd::std_specs::convert::FromSpecImpl<ExceptionCode> for Error {
    open spec fn obeys_from_spec() -> bool {
        true
    }

    open spec fn from_spec(err: ExceptionCode) -> Error {
        Error::Exception(err)
    }
}

} // verus!
