//! Cursors that read from and write to a bounded window of bytes.

use vstd::prelude::*;
use vstd::slice::slice_subrange;

use crate::error::details::{ADUParseError, InternalError};

verus! {

/// The 16-bit value whose high byte is `high` and whose low byte is `low`.
pub open spec fn spec_u16_from_be(high: u8, low: u8) -> u16 {
    ((high as u16) << 8) | (low as u16)
}

/// High byte of a 16-bit value.
pub open spec fn spec_high_byte(value: u16) -> u8 {
    (value >> 8) as u8
}

/// Low byte of a 16-bit value.
pub open spec fn spec_low_byte(value: u16) -> u8 {
    (value & 0xFF) as u8
}

/// The two bytes of a value, high byte first.
pub open spec fn spec_u16_to_be(value: u16) -> Seq<u8> {
    seq![spec_high_byte(value), spec_low_byte(value)]
}

/// Splitting a value into its two bytes and joining them again gives the
/// value back.
pub proof fn lemma_u16_be_roundtrip(value: u16)
    ensures
        spec_u16_from_be(spec_high_byte(value), spec_low_byte(value)) == value,
{
    assert((((value >> 8) as u8) as u16) << 8 | (((value & 0xFF) as u8) as u16) == value)
        by (bit_vector);
}

/// Joining two bytes and splitting the result gives the bytes back.
pub proof fn lemma_u16_be_bytes(high: u8, low: u8)
    ensures
        spec_high_byte(spec_u16_from_be(high, low)) == high,
        spec_low_byte(spec_u16_from_be(high, low)) == low,
{
    assert(((((high as u16) << 8) | (low as u16)) >> 8) as u8 == high) by (bit_vector);
    assert(((((high as u16) << 8) | (low as u16)) & 0xFF) as u8 == low) by (bit_vector);
}

/// Joins two bytes into a 16-bit value, high byte first.
pub fn u16_from_be(high: u8, low: u8) -> (value: u16)
    ensures
        value == spec_u16_from_be(high, low),
{
    ((high as u16) << 8) | (low as u16)
}

/// Reads big-endian values from the front of a byte window.
pub struct ReadCursor<'a> {
    src: &'a [u8],
    pos: usize,
}

impl<'a> ReadCursor<'a> {
    #[verifier::type_invariant]
    spec fn inv(self) -> bool {
        self.pos <= self.src@.len()
    }

    /// The bytes not yet read.
    pub closed spec fn view(&self) -> Seq<u8> {
        self.src@.skip(self.pos as int)
    }

    /// A cursor at the start of `src`.
    pub fn new(src: &'a [u8]) -> (cursor: Self)
        ensures
            cursor@ == src@,
    {
        ReadCursor { src, pos: 0 }
    }

    /// Number of bytes not yet read.
    pub fn len(&self) -> (n: usize)
        ensures
            n == self@.len(),
    {
        proof {
            use_type_invariant(self);
        }
        self.src.len() - self.pos
    }

    /// Whether every byte has been read.
    pub fn is_empty(&self) -> (b: bool)
        ensures
            b == (self@.len() == 0),
    {
        proof {
            use_type_invariant(self);
        }
        self.pos == self.src.len()
    }

    /// Reads one byte. An empty window gives `InsufficientBytes` and stays
    /// as it is.
    pub fn read_u8(&mut self) -> (r: Result<u8, ADUParseError>)
        ensures
            old(self)@.len() >= 1 ==> r == Ok::<u8, ADUParseError>(old(self)@[0]) && final(self)@
                == old(self)@.skip(1),
            old(self)@.len() < 1 ==> r == Err::<u8, ADUParseError>(
                ADUParseError::InsufficientBytes,
            ) && final(self)@ == old(self)@,
    {
        proof {
            use_type_invariant(&*self);
        }
        if self.pos < self.src.len() {
            let value: u8 = self.src[self.pos];
            self.pos = self.pos + 1;
            assert(self@ =~= old(self)@.skip(1));
            Ok(value)
        } else {
            Err(ADUParseError::InsufficientBytes)
        }
    }

    /// Reads a 16-bit value, high byte first. A window of fewer than two
    /// bytes gives `InsufficientBytes` and stays as it is.
    pub fn read_u16_be(&mut self) -> (r: Result<u16, ADUParseError>)
        ensures
            old(self)@.len() >= 2 ==> r == Ok::<u16, ADUParseError>(
                spec_u16_from_be(old(self)@[0], old(self)@[1]),
            ) && final(self)@ == old(self)@.skip(2),
            old(self)@.len() < 2 ==> r == Err::<u16, ADUParseError>(
                ADUParseError::InsufficientBytes,
            ) && final(self)@ == old(self)@,
    {
        proof {
            use_type_invariant(&*self);
        }
        if self.src.len() - self.pos >= 2 {
            let high: u8 = self.src[self.pos];
            let low: u8 = self.src[self.pos + 1];
            self.pos = self.pos + 2;
            assert(self@ =~= old(self)@.skip(2));
            Ok(u16_from_be(high, low))
        } else {
            Err(ADUParseError::InsufficientBytes)
        }
    }

    /// Reads the next `count` bytes. A window of fewer bytes gives
    /// `InsufficientBytes` and stays as it is.
    pub fn read_bytes(&mut self, count: usize) -> (r: Result<&'a [u8], ADUParseError>)
        ensures
            old(self)@.len() >= count ==> r.is_ok() && r.unwrap()@ == old(self)@.take(
                count as int,
            ) && final(self)@ == old(self)@.skip(count as int),
            old(self)@.len() < count ==> r == Err::<&'a [u8], ADUParseError>(
                ADUParseError::InsufficientBytes,
            ) && final(self)@ == old(self)@,
    {
        proof {
            use_type_invariant(&*self);
        }
        if self.src.len() - self.pos >= count {
            let bytes: &'a [u8] = slice_subrange(self.src, self.pos, self.pos + count);
            assert(bytes@ =~= old(self)@.take(count as int));
            self.pos = self.pos + count;
            assert(self@ =~= old(self)@.skip(count as int));
            Ok(bytes)
        } else {
            Err(ADUParseError::InsufficientBytes)
        }
    }
}

/// Writes big-endian values into a window of fixed size.
pub struct WriteCursor {
    dest: Vec<u8>,
    capacity: usize,
}

impl WriteCursor {
    /// The bytes written so far.
    pub closed spec fn view(&self) -> Seq<u8> {
        self.dest@
    }

    /// The size of the window.
    pub closed spec fn spec_capacity(&self) -> nat {
        self.capacity as nat
    }

    /// Number of bytes that the window can still take.
    pub open spec fn spec_remaining(&self) -> nat {
        if self@.len() <= self.spec_capacity() {
            (self.spec_capacity() - self@.len()) as nat
        } else {
            0
        }
    }

    /// An empty window that takes up to `capacity` bytes.
    pub fn new(capacity: usize) -> (cursor: Self)
        ensures
            cursor@ == Seq::<u8>::empty(),
            cursor.spec_capacity() == capacity,
    {
        WriteCursor { dest: Vec::new(), capacity }
    }

    /// Number of bytes written so far.
    pub fn position(&self) -> (n: usize)
        ensures
            n == self@.len(),
    {
        self.dest.len()
    }

    /// Number of bytes that the window can still take.
    pub fn remaining(&self) -> (n: usize)
        ensures
            n == self.spec_remaining(),
    {
        let used: usize = self.dest.len();
        if used <= self.capacity {
            self.capacity - used
        } else {
            0
        }
    }

    /// The bytes written so far.
    pub fn written(&self) -> (bytes: &[u8])
        ensures
            bytes@ == self@,
    {
        self.dest.as_slice()
    }

    /// Gives up the cursor for the bytes written.
    pub fn into_bytes(self) -> (bytes: Vec<u8>)
        ensures
            bytes@ == self@,
    {
        self.dest
    }

    /// Appends one byte. A full window gives `InsufficientBytesForWrite` with
    /// the room asked for and the room left, and stays as it is.
    pub fn write_u8(&mut self, value: u8) -> (r: Result<(), InternalError>)
        ensures
            final(self).spec_capacity() == old(self).spec_capacity(),
            old(self).spec_remaining() >= 1 ==> r.is_ok() && final(self)@ == old(self)@.push(
                value,
            ),
            old(self).spec_remaining() < 1 ==> r == Err::<(), InternalError>(
                InternalError::InsufficientBytesForWrite(1, 0),
            ) && final(self)@ == old(self)@,
    {
        if self.remaining() < 1 {
            return Err(InternalError::InsufficientBytesForWrite(1, 0));
        }
        self.dest.push(value);
        Ok(())
    }

    /// Appends a 16-bit value, high byte first. A window with room for
    /// fewer than two bytes gives `InsufficientBytesForWrite` with the room
    /// asked for and the room left, and stays as it is.
    pub fn write_u16_be(&mut self, value: u16) -> (r: Result<(), InternalError>)
        ensures
            final(self).spec_capacity() == old(self).spec_capacity(),
            old(self).spec_remaining() >= 2 ==> r.is_ok() && final(self)@ == old(self)@
                + spec_u16_to_be(value),
            old(self).spec_remaining() < 2 ==> r == Err::<(), InternalError>(
                InternalError::InsufficientBytesForWrite(2, old(self).spec_remaining() as usize),
            ) && final(self)@ == old(self)@,
    {
        let room: usize = self.remaining();
        if room < 2 {
            return Err(InternalError::InsufficientBytesForWrite(2, room));
        }
        let high: u8 = (value >> 8) as u8;
        let low: u8 = (value & 0xFF) as u8;
        self.dest.push(high);
        self.dest.push(low);
        assert(self@ =~= old(self)@ + spec_u16_to_be(value));
        Ok(())
    }

    /// Appends a run of bytes. A window with room for fewer gives
    /// `InsufficientBytesForWrite` with the room asked for and the room
    /// left, and stays as it is.
    pub fn write_bytes(&mut self, bytes: &[u8]) -> (r: Result<(), InternalError>)
        ensures
            final(self).spec_capacity() == old(self).spec_capacity(),
            old(self).spec_remaining() >= bytes@.len() ==> r.is_ok() && final(self)@ == old(self)@
                + bytes@,
            old(self).spec_remaining() < bytes@.len() ==> r == Err::<(), InternalError>(
                InternalError::InsufficientBytesForWrite(
                    bytes@.len() as usize,
                    old(self).spec_remaining() as usize,
                ),
            ) && final(self)@ == old(self)@,
    {
        let len: usize = bytes.len();
        let room: usize = self.remaining();
        if room < len {
            return Err(InternalError::InsufficientBytesForWrite(len, room));
        }
        let mut i: usize = 0;
        while i < len
            invariant
                i <= len,
                len == bytes@.len(),
                self.spec_capacity() == old(self).spec_capacity(),
                self@ == old(self)@ + bytes@.take(i as int),
            decreases len - i,
        {
            self.dest.push(bytes[i]);
            assert(self@ =~= old(self)@ + bytes@.take(i + 1));
            i = i + 1;
        }
        assert(self@ =~= old(self)@ + bytes@);
        Ok(())
    }
}

} // verus!
