//! The individual error kinds, one enum per stage at which they arise.

use vstd::prelude::*;

use crate::constants::exceptions;

verus! {

/// Why a start and a count do not make an address range.
#[derive(Clone, Copy, Debug, PartialEq, Eq, Structural)]
pub enum InvalidRange {
    /// The count is zero.
    CountOfZero,
    /// The last address of the range would lie beyond `0xFFFF`.
    AddressOverflow(u16, u16),
}

/// Why a request is refused before any byte is sent.
#[derive(Clone, Copy, Debug, PartialEq, Eq, Structural)]
pub enum InvalidRequest {
    /// The start and count are no address range.
    BadRange(InvalidRange),
    /// The count (first) exceeds what this kind of request allows (second).
    CountTooBigForType(u16, u16),
    /// The number of values does not fit in 16 bits.
    CountTooBigForU16(usize),
}

/// Misuse of an internal building block.
#[derive(Clone, Copy, Debug, PartialEq, Eq, Structural)]
pub enum InternalError {
    /// A write would pass the end of the window.
    InsufficientBytesForWrite(usize, usize),
    /// The payload of a frame exceeds the maximum.
    ADUTooBig(usize),
    /// The number of bytes of a body does not fit in its one-byte count.
    BadByteCount(usize),
    /// The channel was handed an event that its state does not allow.
    UnexpectedEvent,
    /// The buffer is too short for the number of bits asked for.
    BadBitIteratorArgs,
    /// The buffer length is not twice the number of registers asked for.
    BadRegisterIteratorArgs,
}

/// Why received bytes are no valid frame or protocol data unit.
#[derive(Clone, Copy, Debug, PartialEq, Eq, Structural)]
pub enum ADUParseError {
    /// The window ended before the value did.
    InsufficientBytes,
    /// The declared byte count (first) differs from the bytes that follow (second).
    InsufficientBytesForByteCount(usize, usize),
    /// The byte count expected from the request (first) differs from the declared one (second).
    RequestByteCountMismatch(usize, usize),
    /// A coil value that is neither on nor off.
    UnknownCoilState(u16),
    /// A function byte that does not answer the request.
    UnknownResponseFunction(u8),
    /// The echoed fields differ from those of the request.
    ReplyEchoMismatch,
    /// The protocol identifier of the header is not zero.
    UnknownProtocolId(u16),
    /// The transaction identifier differs from that of the request.
    BadTransactionId,
    /// The declared length exceeds the largest frame.
    FrameOverflow,
}

/// Exception that a server reports in place of a response.
#[derive(Clone, Copy, Debug, PartialEq, Eq, Structural)]
pub enum ExceptionCode {
    IllegalFunction,
    IllegalDataAddress,
    IllegalDataValue,
    ServerDeviceFailure,
    Acknowledge,
    ServerDeviceBusy,
    MemoryParityError,
    GatewayPathUnavailable,
    GatewayTargetFailedToRespond,
    /// A code outside the ones above.
    Unknown(u8),
}

impl ExceptionCode {
    /// The exception that a wire value stands for.
    pub open spec fn spec_from_u8(value: u8) -> ExceptionCode {
        if value == exceptions::ILLEGAL_FUNCTION {
            ExceptionCode::IllegalFunction
        } else if value == exceptions::ILLEGAL_DATA_ADDRESS {
            ExceptionCode::IllegalDataAddress
        } else if value == exceptions::ILLEGAL_DATA_VALUE {
            ExceptionCode::IllegalDataValue
        } else if value == exceptions::SERVER_DEVICE_FAILURE {
            ExceptionCode::ServerDeviceFailure
        } else if value == exceptions::ACKNOWLEDGE {
            ExceptionCode::Acknowledge
        } else if value == exceptions::SERVER_DEVICE_BUSY {
            ExceptionCode::ServerDeviceBusy
        } else if value == exceptions::MEMORY_PARITY_ERROR {
            ExceptionCode::MemoryParityError
        } else if value == exceptions::GATEWAY_PATH_UNAVAILABLE {
            ExceptionCode::GatewayPathUnavailable
        } else if value == exceptions::GATEWAY_TARGET_DEVICE_FAILED_TO_RESPOND {
            ExceptionCode::GatewayTargetFailedToRespond
        } else {
            ExceptionCode::Unknown(value)
        }
    }

    /// The wire value of an exception.
    pub open spec fn spec_to_u8(self) -> u8 {
        match self {
            ExceptionCode::IllegalFunction => exceptions::ILLEGAL_FUNCTION,
            ExceptionCode::IllegalDataAddress => exceptions::ILLEGAL_DATA_ADDRESS,
            ExceptionCode::IllegalDataValue => exceptions::ILLEGAL_DATA_VALUE,
            ExceptionCode::ServerDeviceFailure => exceptions::SERVER_DEVICE_FAILURE,
            ExceptionCode::Acknowledge => exceptions::ACKNOWLEDGE,
            ExceptionCode::ServerDeviceBusy => exceptions::SERVER_DEVICE_BUSY,
            ExceptionCode::MemoryParityError => exceptions::MEMORY_PARITY_ERROR,
            ExceptionCode::GatewayPathUnavailable => exceptions::GATEWAY_PATH_UNAVAILABLE,
            ExceptionCode::GatewayTargetFailedToRespond => {
                exceptions::GATEWAY_TARGET_DEVICE_FAILED_TO_RESPOND
            },
            ExceptionCode::Unknown(value) => value,
        }
    }

    /// Decodes the byte that follows the function byte of an exception response.
    pub fn from_u8(value: u8) -> (code: ExceptionCode)
        ensures
            code == Self::spec_from_u8(value),
    {
        match value {
            exceptions::ILLEGAL_FUNCTION => ExceptionCode::IllegalFunction,
            exceptions::ILLEGAL_DATA_ADDRESS => ExceptionCode::IllegalDataAddress,
            exceptions::ILLEGAL_DATA_VALUE => ExceptionCode::IllegalDataValue,
            exceptions::SERVER_DEVICE_FAILURE => ExceptionCode::ServerDeviceFailure,
            exceptions::ACKNOWLEDGE => ExceptionCode::Acknowledge,
            exceptions::SERVER_DEVICE_BUSY => ExceptionCode::ServerDeviceBusy,
            exceptions::MEMORY_PARITY_ERROR => ExceptionCode::MemoryParityError,
            exceptions::GATEWAY_PATH_UNAVAILABLE => ExceptionCode::GatewayPathUnavailable,
            exceptions::GATEWAY_TARGET_DEVICE_FAILED_TO_RESPOND => {
                ExceptionCode::GatewayTargetFailedToRespond
            },
            _ => ExceptionCode::Unknown(value),
        }
    }

    /// Encodes the exception as the byte that follows the function byte.
    pub fn to_u8(self) -> (value: u8)
        ensures
            value == self.spec_to_u8(),
    {
        match self {
            ExceptionCode::IllegalFunction => exceptions::ILLEGAL_FUNCTION,
            ExceptionCode::IllegalDataAddress => exceptions::ILLEGAL_DATA_ADDRESS,
            ExceptionCode::IllegalDataValue => exceptions::ILLEGAL_DATA_VALUE,
            ExceptionCode::ServerDeviceFailure => exceptions::SERVER_DEVICE_FAILURE,
            ExceptionCode::Acknowledge => exceptions::ACKNOWLEDGE,
            ExceptionCode::ServerDeviceBusy => exceptions::SERVER_DEVICE_BUSY,
            ExceptionCode::MemoryParityError => exceptions::MEMORY_PARITY_ERROR,
            ExceptionCode::GatewayPathUnavailable => exceptions::GATEWAY_PATH_UNAVAILABLE,
            ExceptionCode::GatewayTargetFailedToRespond => {
                exceptions::GATEWAY_TARGET_DEVICE_FAILED_TO_RESPOND
            },
            ExceptionCode::Unknown(value) => value,
        }
    }
}

impl From<InvalidRange> for InvalidRequest {
    fn from(err: InvalidRange) -> (r: InvalidRequest) {
        InvalidRequest::BadRange(err)
    }
}

impl vstd::std_specs::convert::FromSpecImpl<InvalidRange> for InvalidRequest {
    open spec fn obeys_from_spec() -> bool {
        true
    }

    open spec fn from_spec(err: InvalidRange) -> InvalidRequest {
        InvalidRequest::BadRange(err)
    }
}

} // verus!
