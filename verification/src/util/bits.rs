//! Packed bits and registers as they lie in a byte buffer.

use vstd::prelude::*;

use crate::util::cursor::{
    lemma_u16_be_bytes, lemma_u16_be_roundtrip, spec_high_byte, spec_low_byte, spec_u16_from_be,
};

verus! {

/// Number of bytes that hold `count` bits, eight to a byte.
pub open spec fn spec_num_bytes_for_bits(count: int) -> int {
    (count + 7) / 8
}

/// Whether bit `bit` of `byte` is set, bit 0 being the lowest.
pub open spec fn spec_bit(byte: u8, bit: u8) -> bool {
    byte & (1u8 << bit) != 0
}

/// The first `count` bits of `bytes`, lowest bit of the first byte first.
pub open spec fn spec_unpack_bits(bytes: Seq<u8>, count: nat) -> Seq<bool> {
    Seq::new(count, |i: int| spec_bit(bytes[i / 8], (i % 8) as u8))
}

/// The registers that `bytes` hold, two bytes each, high byte first.
pub open spec fn spec_unpack_registers(bytes: Seq<u8>) -> Seq<u16> {
    Seq::new(bytes.len() / 2, |i: int| spec_u16_from_be(bytes[2 * i], bytes[2 * i + 1]))
}

/// Number of bytes needed to carry `count` packed bits.
pub fn num_bytes_for_bits(count: u16) -> (n: usize)
    ensures
        n == spec_num_bytes_for_bits(count as int),
        8 * n >= count,
        8 * n < count + 8,
{
    let wide: usize = count as usize;
    (wide + 7) / 8
}

/// Reads bit `bit` of `byte`, bit 0 being the lowest.
pub fn get_bit(byte: u8, bit: u8) -> (b: bool)
    requires
        bit < 8,
    ensures
        b == spec_bit(byte, bit),
{
    (byte & (1u8 << bit)) != 0
}

/// What bit `i` of a sequence adds to the byte that holds it: its place
/// value if the bit exists and is set, nothing otherwise.
pub open spec fn spec_bit_mask(bits: Seq<bool>, i: int) -> u8 {
    if 0 <= i < bits.len() && bits[i] {
        1u8 << ((i % 8) as u8)
    } else {
        0u8
    }
}

/// Byte `byte` of the packed form with only its lowest `k` bits filled in.
pub open spec fn spec_pack_partial(bits: Seq<bool>, byte: int, k: nat) -> u8
    decreases k,
{
    if k == 0 {
        0u8
    } else {
        spec_pack_partial(bits, byte, (k - 1) as nat) | spec_bit_mask(bits, 8 * byte + k - 1)
    }
}

/// Byte `byte` of the packed form of `bits`: bit `k` of it is bit
/// `8 * byte + k` of the sequence, and clear where the sequence has ended.
pub open spec fn spec_pack_byte(bits: Seq<bool>, byte: int) -> u8 {
    spec_pack_partial(bits, byte, 8)
}

/// The bits packed eight to a byte, the first bit in the lowest bit of the
/// first byte.
pub open spec fn spec_pack_bits(bits: Seq<bool>) -> Seq<u8> {
    Seq::new(
        spec_num_bytes_for_bits(bits.len() as int) as nat,
        |byte: int| spec_pack_byte(bits, byte),
    )
}

/// The registers as bytes, two for each, high byte first.
pub open spec fn spec_pack_registers(registers: Seq<u16>) -> Seq<u8> {
    Seq::new(
        2 * registers.len(),
        |i: int|
            if i % 2 == 0 {
                spec_high_byte(registers[i / 2])
            } else {
                spec_low_byte(registers[i / 2])
            },
    )
}

/// Bit `m` of a partly filled byte is set exactly when it is among the
/// bits filled in and the bit of the sequence that belongs there is set.
pub proof fn lemma_pack_partial_bit(bits: Seq<bool>, byte: int, k: nat, m: u8)
    requires
        0 <= byte,
        k <= 8,
        m < 8,
    ensures
        spec_bit(spec_pack_partial(bits, byte, k), m) == (m < k && 8 * byte + m < bits.len()
            && bits[8 * byte + m]),
    decreases k,
{
    if k == 0 {
        assert(0u8 & (1u8 << m) == 0) by (bit_vector);
    } else {
        let prev = spec_pack_partial(bits, byte, (k - 1) as nat);
        let i = 8 * byte + k - 1;
        let j: u8 = (k - 1) as u8;
        lemma_pack_partial_bit(bits, byte, (k - 1) as nat, m);
        assert(i % 8 == k - 1);
        if 0 <= i < bits.len() && bits[i] {
            assert(((prev | (1u8 << j)) & (1u8 << m) != 0) == ((prev & (1u8 << m) != 0) || m == j))
                by (bit_vector)
                requires
                    m < 8,
                    j < 8,
            ;
        } else {
            assert(prev | 0u8 == prev) by (bit_vector);
        }
    }
}

/// Packing bits and unpacking as many gives the bits back, and the packed
/// form has one byte for every eight bits or part of eight.
pub proof fn lemma_pack_bits_roundtrip(bits: Seq<bool>)
    ensures
        spec_pack_bits(bits).len() == spec_num_bytes_for_bits(bits.len() as int),
        spec_unpack_bits(spec_pack_bits(bits), bits.len()) == bits,
{
    let packed = spec_pack_bits(bits);
    let unpacked = spec_unpack_bits(packed, bits.len());
    assert forall|i: int| 0 <= i < bits.len() implies unpacked[i] == bits[i] by {
        let byte = i / 8;
        let m: u8 = (i % 8) as u8;
        lemma_pack_partial_bit(bits, byte, 8, m);
        assert(packed[byte] == spec_pack_byte(bits, byte));
        assert(8 * byte + m == i);
    }
    assert(unpacked =~= bits);
}

/// The bits of a packed form beyond the length of the sequence are clear.
pub proof fn lemma_pack_bits_padding(bits: Seq<bool>, i: int)
    requires
        bits.len() <= i < 8 * spec_num_bytes_for_bits(bits.len() as int),
    ensures
        !spec_bit(spec_pack_bits(bits)[i / 8], (i % 8) as u8),
{
    lemma_pack_partial_bit(bits, i / 8, 8, (i % 8) as u8);
}

/// The packed form of registers has two bytes for each, and unpacking it
/// gives the registers back.
pub proof fn lemma_pack_registers_roundtrip(registers: Seq<u16>)
    ensures
        spec_pack_registers(registers).len() == 2 * registers.len(),
        spec_unpack_registers(spec_pack_registers(registers)) == registers,
{
    let packed = spec_pack_registers(registers);
    let unpacked = spec_unpack_registers(packed);
    assert forall|i: int| 0 <= i < registers.len() implies unpacked[i] == registers[i] by {
        lemma_u16_be_roundtrip(registers[i]);
        assert(packed[2 * i] == spec_high_byte(registers[i]));
        assert(packed[2 * i + 1] == spec_low_byte(registers[i]));
    }
    assert(unpacked =~= registers);
}

/// Unpacking an even number of bytes as registers and packing them again
/// gives the bytes back.
pub proof fn lemma_unpack_registers_roundtrip(bytes: Seq<u8>)
    requires
        bytes.len() % 2 == 0,
    ensures
        spec_unpack_registers(bytes).len() * 2 == bytes.len(),
        spec_pack_registers(spec_unpack_registers(bytes)) == bytes,
{
    let registers = spec_unpack_registers(bytes);
    let packed = spec_pack_registers(registers);
    assert forall|i: int| 0 <= i < bytes.len() implies packed[i] == bytes[i] by {
        let r = i / 2;
        lemma_u16_be_bytes(bytes[2 * r], bytes[2 * r + 1]);
    }
    assert(packed =~= bytes);
}

/// Filling in one more bit of a byte sets that bit if the bit of the
/// sequence that belongs there is set, and changes nothing otherwise.
pub proof fn lemma_pack_partial_step(bits: Seq<bool>, byte: int, k: u8)
    requires
        0 <= byte,
        k < 8,
    ensures
        spec_pack_partial(bits, byte, (k + 1) as nat) == if 8 * byte + k < bits.len() && bits[8
            * byte + k] {
            spec_pack_partial(bits, byte, k as nat) | (1u8 << k)
        } else {
            spec_pack_partial(bits, byte, k as nat)
        },
{
    let prev = spec_pack_partial(bits, byte, k as nat);
    let i = 8 * byte + k;
    assert(i % 8 == k as int);
    assert(((i % 8) as u8) == k);
    assert(prev | 0u8 == prev) by (bit_vector);
    assert(spec_pack_partial(bits, byte, (k + 1) as nat) == prev | spec_bit_mask(bits, i));
}

/// Packs the eight bits of `values` that belong in byte `byte`.
pub fn pack_byte(values: &[bool], byte: usize) -> (packed: u8)
    requires
        8 * byte < values@.len(),
    ensures
        packed == spec_pack_byte(values@, byte as int),
{
    let len: usize = values.len();
    let base: usize = 8 * byte;
    let mut acc: u8 = 0;
    let mut k: u8 = 0;
    while k < 8
        invariant
            k <= 8,
            base == 8 * byte,
            base < len,
            len == values@.len(),
            acc == spec_pack_partial(values@, byte as int, k as nat),
        decreases 8 - k,
    {
        proof {
            lemma_pack_partial_step(values@, byte as int, k);
        }
        let room: usize = len - base;
        if (k as usize) < room && values[base + k as usize] {
            acc = acc | (1u8 << k);
        }
        k = k + 1;
    }
    acc
}

} // verus!
