//! Sizes of frames and of their parts.

use vstd::prelude::*;

verus! {

/// Most bytes of a protocol data unit: the function byte and its body.
pub const MAX_PDU_SIZE: usize = 253;

/// Bytes of the header that goes before a protocol data unit over TCP.
pub const MBAP_HEADER_SIZE: usize = 7;

/// Largest value of the length field of that header: the unit identifier
/// and the largest protocol data unit.
pub const MAX_MBAP_LENGTH: u16 = 254;

} // verus!
