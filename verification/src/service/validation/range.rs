//! Limits on the count of a request, per kind of request.

use vstd::prelude::*;

use crate::constants::limits;
use crate::error::details::InvalidRequest;
use crate::types::AddressRange;

verus! {

/// Whether a count is within a limit, and the error if it is not.
pub open spec fn spec_check_validity(range: AddressRange, max_count: u16) -> Result<
    (),
    InvalidRequest,
> {
    if range.count > max_count {
        Err(InvalidRequest::CountTooBigForType(range.count, max_count))
    } else {
        Ok(())
    }
}

/// Accepts a range of at most `max_count` addresses; a longer one gives
/// `CountTooBigForType` with the count and the limit.
pub fn check_validity(range: AddressRange, max_count: u16) -> (r: Result<(), InvalidRequest>)
    ensures
        r == spec_check_validity(range, max_count),
{
    if range.count > max_count {
        return Err(InvalidRequest::CountTooBigForType(range.count, max_count));
    }
    Ok(())
}

/// Accepts a read of at most 2000 coils or discrete inputs.
pub fn check_validity_for_read_bits(range: AddressRange) -> (r: Result<(), InvalidRequest>)
    ensures
        r == spec_check_validity(range, 2000),
{
    check_validity(range, limits::MAX_READ_COILS_COUNT)
}

/// Accepts a read of at most 125 holding or input registers.
pub fn check_validity_for_read_registers(range: AddressRange) -> (r: Result<(), InvalidRequest>)
    ensures
        r == spec_check_validity(range, 125),
{
    check_validity(range, limits::MAX_READ_REGISTERS_COUNT)
}

/// Accepts a write of at most 1968 coils.
pub fn check_validity_for_write_multiple_coils(range: AddressRange) -> (r: Result<
    (),
    InvalidRequest,
>)
    ensures
        r == spec_check_validity(range, 1968),
{
    check_validity(range, limits::MAX_WRITE_COILS_COUNT)
}

/// Accepts a write of at most 123 registers.
pub fn check_validity_for_write_multiple_registers(range: AddressRange) -> (r: Result<
    (),
    InvalidRequest,
>)
    ensures
        r == spec_check_validity(range, 123),
{
    check_validity(range, limits::MAX_WRITE_REGISTERS_COUNT)
}

} // verus!
