//! Wire values of the exception codes, and the bit that marks an
//! exception response.

use vstd::prelude::*;

verus! {

/// Bit set in the function byte of an exception response.
pub const ERROR_DELIMITER: u8 = 0x80;

pub const ILLEGAL_FUNCTION: u8 = 0x01;

pub const ILLEGAL_DATA_ADDRESS: u8 = 0x02;

pub const ILLEGAL_DATA_VALUE: u8 = 0x03;

pub const SERVER_DEVICE_FAILURE: u8 = 0x04;

pub const ACKNOWLEDGE: u8 = 0x05;

pub const SERVER_DEVICE_BUSY: u8 = 0x06;

pub const MEMORY_PARITY_ERROR: u8 = 0x08;

pub const GATEWAY_PATH_UNAVAILABLE: u8 = 0x0A;

pub const GATEWAY_TARGET_DEVICE_FAILED_TO_RESPOND: u8 = 0x0B;

} // verus!
