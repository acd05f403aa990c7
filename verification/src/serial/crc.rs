//! The checksum of a frame on a serial line: CRC-16 with the reflected
//! polynomial `0xA001`, starting from `0xFFFF`.

use vstd::prelude::*;

verus! {

/// One shift of the checksum: the lowest bit falls out, and where it was
/// set the polynomial is folded in.
pub open spec fn spec_crc_shift(crc: u16) -> u16 {
    if crc & 1 == 1 {
        (crc >> 1) ^ 0xA001
    } else {
        crc >> 1
    }
}

/// `n` shifts of the checksum.
pub open spec fn spec_crc_shifts(crc: u16, n: nat) -> u16
    decreases n,
{
    if n == 0 {
        crc
    } else {
        spec_crc_shift(spec_crc_shifts(crc, (n - 1) as nat))
    }
}

/// The checksum after one more byte: the byte is folded into the low
/// half, then come eight shifts.
pub open spec fn spec_crc_update(crc: u16, byte: u8) -> u16 {
    spec_crc_shifts(crc ^ (byte as u16), 8)
}

/// The checksum of a run of bytes.
pub open spec fn spec_crc16(bytes: Seq<u8>) -> u16
    decreases bytes.len(),
{
    if bytes.len() == 0 {
        0xFFFF
    } else {
        spec_crc_update(spec_crc16(bytes.drop_last()), bytes.last())
    }
}

/// Folds one byte into a checksum.
pub fn crc_update(crc: u16, byte: u8) -> (next: u16)
    ensures
        next == spec_crc_update(crc, byte),
{
    let mut value: u16 = crc ^ (byte as u16);
    let mut n: u8 = 0;
    while n < 8
        invariant
            n <= 8,
            value == spec_crc_shifts(crc ^ (byte as u16), n as nat),
        decreases 8 - n,
    {
        if value & 1 == 1 {
            value = (value >> 1) ^ 0xA001;
        } else {
            value = value >> 1;
        }
        n = n + 1;
    }
    value
}

/// Computes the checksum of a run of bytes.
pub fn crc16(bytes: &[u8]) -> (crc: u16)
    ensures
        crc == spec_crc16(bytes@),
{
    let len: usize = bytes.len();
    let mut crc: u16 = 0xFFFF;
    let mut i: usize = 0;
    while i < len
        invariant
            i <= len,
            len == bytes@.len(),
            crc == spec_crc16(bytes@.take(i as int)),
        decreases len - i,
    {
        assert(bytes@.take(i + 1).drop_last() =~= bytes@.take(i as int));
        crc = crc_update(crc, bytes[i]);
        i = i + 1;
    }
    assert(bytes@.take(len as int) =~= bytes@);
    crc
}

} // verus!
