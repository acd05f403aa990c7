//! Encoders of the bodies of requests and responses.

use vstd::prelude::*;

use crate::error::details::InternalError;
use crate::error::Error;
use crate::service::traits::{spec_written, Serialize};
use crate::types::{
    coil_to_u16, spec_coil_to_u16, spec_values_range, AddressRange, Indexed, WriteMultiple,
};
use crate::util::bits::{pack_byte, spec_num_bytes_for_bits, spec_pack_bits, spec_pack_registers};
use crate::util::cursor::{spec_u16_to_be, WriteCursor};

verus! {

/// The byte count that goes before `len` packed bits, or `BadByteCount`
/// with the number of bytes when it does not fit in one byte.
pub open spec fn spec_byte_count_for_bits(len: nat) -> Result<u8, InternalError> {
    let count = spec_num_bytes_for_bits(len as int);
    if count > 255 {
        Err(InternalError::BadByteCount(count as usize))
    } else {
        Ok(count as u8)
    }
}

/// The byte count that goes before `len` registers, or `BadByteCount`
/// when it does not fit in one byte, with the number of bytes, or with the
/// largest `usize` if that is less.
pub open spec fn spec_byte_count_for_registers(len: nat) -> Result<u8, InternalError> {
    if 2 * len > 255 {
        Err(
            InternalError::BadByteCount(
                if 2 * len <= usize::MAX {
                    (2 * len) as usize
                } else {
                    usize::MAX
                },
            ),
        )
    } else {
        Ok((2 * len) as u8)
    }
}

/// A byte count and the bits packed behind it.
pub open spec fn spec_serialize_bits(bits: Seq<bool>) -> Result<Seq<u8>, Error> {
    match spec_byte_count_for_bits(bits.len()) {
        Err(err) => Err(Error::Internal(err)),
        Ok(count) => Ok(seq![count] + spec_pack_bits(bits)),
    }
}

/// A byte count and the registers behind it, high byte first.
pub open spec fn spec_serialize_registers(registers: Seq<u16>) -> Result<Seq<u8>, Error> {
    match spec_byte_count_for_registers(registers.len()) {
        Err(err) => Err(Error::Internal(err)),
        Ok(count) => Ok(seq![count] + spec_pack_registers(registers)),
    }
}

/// The byte count that goes before `len` packed bits.
pub fn byte_count_for_bits(len: usize) -> (r: Result<u8, InternalError>)
    ensures
        r == spec_byte_count_for_bits(len as nat),
{
    let partial: usize = if len % 8 != 0 {
        1
    } else {
        0
    };
    let count: usize = len / 8 + partial;
    if count > 255 {
        Err(InternalError::BadByteCount(count))
    } else {
        Ok(count as u8)
    }
}

/// The byte count that goes before `len` registers.
pub fn byte_count_for_registers(len: usize) -> (r: Result<u8, InternalError>)
    ensures
        r == spec_byte_count_for_registers(len as nat),
{
    if len > 127 {
        let bytes: usize = if len <= usize::MAX / 2 {
            2 * len
        } else {
            usize::MAX
        };
        Err(InternalError::BadByteCount(bytes))
    } else {
        Ok((2 * len) as u8)
    }
}

/// Refuses a write of `needed` bytes for which the window has no room.
pub(crate) fn check_room(cursor: &WriteCursor, needed: usize) -> (r: Result<(), Error>)
    ensures
        needed <= cursor.spec_remaining() ==> r.is_ok(),
        needed > cursor.spec_remaining() ==> r == Err::<(), Error>(
            Error::Internal(
                InternalError::InsufficientBytesForWrite(needed, cursor.spec_remaining() as usize),
            ),
        ),
{
    let room: usize = cursor.remaining();
    if room < needed {
        Err(Error::Internal(InternalError::InsufficientBytesForWrite(needed, room)))
    } else {
        Ok(())
    }
}

/// Appends a byte to a window that has room for it.
pub(crate) fn put_u8(cursor: &mut WriteCursor, value: u8)
    requires
        old(cursor).spec_remaining() >= 1,
    ensures
        final(cursor).spec_capacity() == old(cursor).spec_capacity(),
        final(cursor)@ == old(cursor)@.push(value),
{
    let _ = cursor.write_u8(value);
}

/// Appends a 16-bit value, high byte first, to a window that has room for
/// it.
pub(crate) fn put_u16_be(cursor: &mut WriteCursor, value: u16)
    requires
        old(cursor).spec_remaining() >= 2,
    ensures
        final(cursor).spec_capacity() == old(cursor).spec_capacity(),
        final(cursor)@ == old(cursor)@ + spec_u16_to_be(value),
{
    let _ = cursor.write_u16_be(value);
}

/// Appends the packed form of `values` to a window that has room for it.
pub(crate) fn write_packed_bits(values: &[bool], cursor: &mut WriteCursor)
    requires
        old(cursor).spec_remaining() >= spec_num_bytes_for_bits(values@.len() as int),
    ensures
        final(cursor).spec_capacity() == old(cursor).spec_capacity(),
        final(cursor)@ == old(cursor)@ + spec_pack_bits(values@),
{
    let len: usize = values.len();
    let partial: usize = if len % 8 != 0 {
        1
    } else {
        0
    };
    let count: usize = len / 8 + partial;
    let mut byte: usize = 0;
    while byte < count
        invariant
            byte <= count,
            len == values@.len(),
            count == spec_num_bytes_for_bits(len as int),
            cursor.spec_capacity() == old(cursor).spec_capacity(),
            old(cursor).spec_remaining() >= count,
            cursor@ == old(cursor)@ + spec_pack_bits(values@).take(byte as int),
        decreases count - byte,
    {
        let packed: u8 = pack_byte(values, byte);
        put_u8(cursor, packed);
        assert(cursor@ =~= old(cursor)@ + spec_pack_bits(values@).take(byte + 1));
        byte = byte + 1;
    }
    assert(cursor@ =~= old(cursor)@ + spec_pack_bits(values@));
}

/// Appends `values`, two bytes each and high byte first, to a window that
/// has room for them.
pub(crate) fn write_packed_registers(values: &[u16], cursor: &mut WriteCursor)
    requires
        old(cursor).spec_remaining() >= 2 * values@.len(),
    ensures
        final(cursor).spec_capacity() == old(cursor).spec_capacity(),
        final(cursor)@ == old(cursor)@ + spec_pack_registers(values@),
{
    let len: usize = values.len();
    let mut i: usize = 0;
    while i < len
        invariant
            i <= len,
            len == values@.len(),
            cursor.spec_capacity() == old(cursor).spec_capacity(),
            old(cursor).spec_remaining() >= 2 * len,
            cursor@ == old(cursor)@ + spec_pack_registers(values@).take(2 * i),
        decreases len - i,
    {
        put_u16_be(cursor, values[i]);
        assert(cursor@ =~= old(cursor)@ + spec_pack_registers(values@).take(2 * (i + 1)));
        i = i + 1;
    }
    assert(cursor@ =~= old(cursor)@ + spec_pack_registers(values@));
}

/// Appends a byte count and the packed form of `values`. More bits than
/// 255 bytes hold give `BadByteCount`; a window without room gives
/// `InsufficientBytesForWrite`; either way the window stays as it was.
pub fn serialize_bits(values: &[bool], cursor: &mut WriteCursor) -> (r: Result<(), Error>)
    ensures
        final(cursor).spec_capacity() == old(cursor).spec_capacity(),
        spec_written(
            spec_serialize_bits(values@),
            old(cursor)@,
            old(cursor).spec_remaining(),
            r,
            final(cursor)@,
        ),
{
    let count: u8 = match byte_count_for_bits(values.len()) {
        Ok(count) => count,
        Err(err) => {
            return Err(Error::Internal(err));
        },
    };
    match check_room(cursor, count as usize + 1) {
        Ok(()) => {},
        Err(err) => {
            return Err(err);
        },
    }
    put_u8(cursor, count);
    write_packed_bits(values, cursor);
    assert(cursor@ =~= old(cursor)@ + (seq![count] + spec_pack_bits(values@)));
    Ok(())
}

/// Appends a byte count and `values`, high byte first. More registers
/// than 255 bytes hold give `BadByteCount`; a window without room gives
/// `InsufficientBytesForWrite`; either way the window stays as it was.
pub fn serialize_registers(values: &[u16], cursor: &mut WriteCursor) -> (r: Result<(), Error>)
    ensures
        final(cursor).spec_capacity() == old(cursor).spec_capacity(),
        spec_written(
            spec_serialize_registers(values@),
            old(cursor)@,
            old(cursor).spec_remaining(),
            r,
            final(cursor)@,
        ),
{
    let count: u8 = match byte_count_for_registers(values.len()) {
        Ok(count) => count,
        Err(err) => {
            return Err(Error::Internal(err));
        },
    };
    match check_room(cursor, count as usize + 1) {
        Ok(()) => {},
        Err(err) => {
            return Err(err);
        },
    }
    put_u8(cursor, count);
    write_packed_registers(values, cursor);
    assert(cursor@ =~= old(cursor)@ + (seq![count] + spec_pack_registers(values@)));
    Ok(())
}

/// Two 16-bit values, each high byte first.
pub open spec fn spec_two_u16_to_be(first: u16, second: u16) -> Seq<u8> {
    spec_u16_to_be(first) + spec_u16_to_be(second)
}

/// Appends two 16-bit values, or leaves a window without room for them as
/// it was.
pub fn write_two_u16(cursor: &mut WriteCursor, first: u16, second: u16) -> (r: Result<(), Error>)
    ensures
        final(cursor).spec_capacity() == old(cursor).spec_capacity(),
        spec_written(
            Ok(spec_two_u16_to_be(first, second)),
            old(cursor)@,
            old(cursor).spec_remaining(),
            r,
            final(cursor)@,
        ),
{
    match check_room(cursor, 4) {
        Ok(()) => {},
        Err(err) => {
            return Err(err);
        },
    }
    put_u16_be(cursor, first);
    put_u16_be(cursor, second);
    assert(cursor@ =~= old(cursor)@ + spec_two_u16_to_be(first, second));
    Ok(())
}

impl Serialize for AddressRange {
    open spec fn spec_serialize(&self) -> Result<Seq<u8>, Error> {
        Ok(spec_two_u16_to_be(self.start, self.count))
    }

    /// Writes the start and the count.
    fn serialize(&self, cursor: &mut WriteCursor) -> (r: Result<(), Error>) {
        write_two_u16(cursor, self.start, self.count)
    }
}

impl Serialize for Indexed<bool> {
    open spec fn spec_serialize(&self) -> Result<Seq<u8>, Error> {
        Ok(spec_two_u16_to_be(self.index, spec_coil_to_u16(self.value)))
    }

    /// Writes the address and the wire value of the coil state.
    fn serialize(&self, cursor: &mut WriteCursor) -> (r: Result<(), Error>) {
        write_two_u16(cursor, self.index, coil_to_u16(self.value))
    }
}

impl Serialize for Indexed<u16> {
    open spec fn spec_serialize(&self) -> Result<Seq<u8>, Error> {
        Ok(spec_two_u16_to_be(self.index, self.value))
    }

    /// Writes the address and the value.
    fn serialize(&self, cursor: &mut WriteCursor) -> (r: Result<(), Error>) {
        write_two_u16(cursor, self.index, self.value)
    }
}

/// The body of a write of several coils: start, count, byte count, bits.
pub open spec fn spec_serialize_write_coils(start: u16, values: Seq<bool>) -> Result<
    Seq<u8>,
    Error,
> {
    match spec_values_range(start, values.len()) {
        Err(err) => Err(Error::BadRequest(err)),
        Ok(range) => match spec_serialize_bits(values) {
            Err(err) => Err(err),
            Ok(body) => Ok(spec_two_u16_to_be(range.start, range.count) + body),
        },
    }
}

/// The body of a write of several registers: start, count, byte count,
/// registers.
pub open spec fn spec_serialize_write_registers(start: u16, values: Seq<u16>) -> Result<
    Seq<u8>,
    Error,
> {
    match spec_values_range(start, values.len()) {
        Err(err) => Err(Error::BadRequest(err)),
        Ok(range) => match spec_serialize_registers(values) {
            Err(err) => Err(err),
            Ok(body) => Ok(spec_two_u16_to_be(range.start, range.count) + body),
        },
    }
}

impl Serialize for WriteMultiple<bool> {
    open spec fn spec_serialize(&self) -> Result<Seq<u8>, Error> {
        spec_serialize_write_coils(self.start, self.values@)
    }

    /// Writes the range that the values cover, then the byte count and the
    /// packed bits. Values that cover no range give `BadRequest`.
    fn serialize(&self, cursor: &mut WriteCursor) -> (r: Result<(), Error>) {
        let range: AddressRange = match self.to_address_range() {
            Ok(range) => range,
            Err(err) => {
                return Err(Error::BadRequest(err));
            },
        };
        let count: u8 = match byte_count_for_bits(self.values.len()) {
            Ok(count) => count,
            Err(err) => {
                return Err(Error::Internal(err));
            },
        };
        match check_room(cursor, count as usize + 5) {
            Ok(()) => {},
            Err(err) => {
                return Err(err);
            },
        }
        put_u16_be(cursor, range.start);
        put_u16_be(cursor, range.count);
        put_u8(cursor, count);
        write_packed_bits(self.values.as_slice(), cursor);
        assert(cursor@ =~= old(cursor)@ + (spec_two_u16_to_be(range.start, range.count) + (
        seq![count] + spec_pack_bits(self.values@))));
        Ok(())
    }
}

impl Serialize for WriteMultiple<u16> {
    open spec fn spec_serialize(&self) -> Result<Seq<u8>, Error> {
        spec_serialize_write_registers(self.start, self.values@)
    }

    /// Writes the range that the values cover, then the byte count and the
    /// registers. Values that cover no range give `BadRequest`.
    fn serialize(&self, cursor: &mut WriteCursor) -> (r: Result<(), Error>) {
        let range: AddressRange = match self.to_address_range() {
            Ok(range) => range,
            Err(err) => {
                return Err(Error::BadRequest(err));
            },
        };
        let count: u8 = match byte_count_for_registers(self.values.len()) {
            Ok(count) => count,
            Err(err) => {
                return Err(Error::Internal(err));
            },
        };
        match check_room(cursor, count as usize + 5) {
            Ok(()) => {},
            Err(err) => {
                return Err(err);
            },
        }
        put_u16_be(cursor, range.start);
        put_u16_be(cursor, range.count);
        put_u8(cursor, count);
        write_packed_registers(self.values.as_slice(), cursor);
        assert(cursor@ =~= old(cursor)@ + (spec_two_u16_to_be(range.start, range.count) + (
        seq![count] + spec_pack_registers(self.values@))));
        Ok(())
    }
}

} // verus!
