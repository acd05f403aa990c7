//! Value types of requests and responses.

use vstd::prelude::*;

use crate::constants::coil;
use crate::error::details::{ADUParseError, InternalError, InvalidRange, InvalidRequest};
use crate::util::bits::{
    get_bit, num_bytes_for_bits, spec_num_bytes_for_bits, spec_unpack_bits, spec_unpack_registers,
};
use crate::util::cursor::u16_from_be;

verus! {

/// Modbus unit identifier, a type-safe wrapper around `u8`.
#[derive(Clone, Copy, Debug, PartialEq, Eq, PartialOrd, Ord, Structural)]
pub struct UnitId {
    /// underlying raw value
    pub value: u8,
}

/// Start and count of a run of addresses.
///
/// A range is valid when it holds at least one address and none beyond
/// `0xFFFF`; `try_from` makes valid ranges only.
#[derive(Clone, Copy, Debug, PartialEq, Eq, Structural)]
pub struct AddressRange {
    /// starting address of the range
    pub start: u16,
    /// count of elements in the range
    pub count: u16,
}

/// Value and its address.
#[derive(Clone, Copy, Debug, PartialEq)]
pub struct Indexed<T> {
    /// address of the value
    pub index: u16,
    /// associated value
    pub value: T,
}

impl<T> View for Indexed<T> {
    type V = Indexed<T>;

    open spec fn view(&self) -> Indexed<T> {
        *self
    }
}

impl View for AddressRange {
    type V = AddressRange;

    open spec fn view(&self) -> AddressRange {
        *self
    }
}

/// Walks over the bits packed in a borrowed buffer, lowest bit of the
/// first byte first, without allocating.
#[derive(Copy, Clone)]
pub struct BitIterator<'a> {
    bytes: &'a [u8],
    range: AddressRange,
    pos: u16,
}

/// Walks over the big-endian registers in a borrowed buffer without
/// allocating.
#[derive(Copy, Clone)]
pub struct RegisterIterator<'a> {
    bytes: &'a [u8],
    range: AddressRange,
    pos: u16,
}

impl<'a> BitIterator<'a> {
    #[verifier::type_invariant]
    spec fn inv(self) -> bool {
        &&& self.pos <= self.range.count
        &&& spec_num_bytes_for_bits(self.range.count as int) <= self.bytes@.len()
    }

    /// The bits still to come.
    pub closed spec fn view(&self) -> Seq<bool> {
        spec_unpack_bits(self.bytes@, self.range.count as nat).skip(self.pos as int)
    }

    /// The range that the bits belong to.
    pub closed spec fn spec_range(&self) -> AddressRange {
        self.range
    }

    /// An iterator over the first `range.count` bits of `bytes`. Fails with
    /// `BadBitIteratorArgs` when `bytes` holds fewer bits than that.
    pub fn create(bytes: &'a [u8], range: AddressRange) -> (r: Result<Self, InternalError>)
        ensures
            bytes@.len() >= spec_num_bytes_for_bits(range.count as int) ==> (r matches Ok(it)
                && it@ == spec_unpack_bits(bytes@, range.count as nat) && it.spec_range()
                == range),
            bytes@.len() < spec_num_bytes_for_bits(range.count as int) ==> (r matches Err(err)
                && err == InternalError::BadBitIteratorArgs),
    {
        if bytes.len() < num_bytes_for_bits(range.count) {
            return Err(InternalError::BadBitIteratorArgs);
        }
        let iterator = BitIterator { bytes, range, pos: 0 };
        assert(iterator@ =~= spec_unpack_bits(bytes@, range.count as nat));
        Ok(iterator)
    }

    /// The range that the bits belong to.
    pub fn range(&self) -> (range: AddressRange)
        ensures
            range == self.spec_range(),
    {
        self.range
    }

    /// Takes the next bit, or `None` when all bits of the range are taken.
    pub fn next(&mut self) -> (r: Option<bool>)
        ensures
            final(self).spec_range() == old(self).spec_range(),
            old(self)@.len() == 0 ==> r.is_none() && final(self)@ == old(self)@,
            old(self)@.len() > 0 ==> r == Some(old(self)@[0]) && final(self)@ == old(self)@.skip(
                1,
            ),
    {
        proof {
            use_type_invariant(&*self);
        }
        if self.pos == self.range.count {
            return None;
        }
        let byte: usize = (self.pos / 8) as usize;
        let bit: u8 = (self.pos % 8) as u8;
        let value: u8 = self.bytes[byte];
        self.pos = self.pos + 1;
        assert(self@ =~= old(self)@.skip(1));
        Some(get_bit(value, bit))
    }

    /// Number of bits still to come, as lower and upper bound.
    pub fn size_hint(&self) -> (r: (usize, Option<usize>))
        ensures
            r.0 == self@.len(),
            r.1 == Some(r.0),
    {
        proof {
            use_type_invariant(self);
        }
        let remaining: usize = (self.range.count - self.pos) as usize;
        (remaining, Some(remaining))
    }

    /// Gathers the bits still to come.
    pub fn collect(self) -> (values: Vec<bool>)
        ensures
            values@ == self@,
    {
        let mut iterator = self;
        let mut values: Vec<bool> = Vec::new();
        loop
            invariant
                values@ + iterator@ == self@,
                values@.len() + iterator@.len() == self@.len(),
            ensures
                iterator@.len() == 0,
            decreases iterator@.len(),
        {
            match iterator.next() {
                Some(bit) => {
                    values.push(bit);
                },
                None => {
                    break ;
                },
            }
        }
        assert(values@ =~= values@ + iterator@);
        values
    }
}

impl<'a> RegisterIterator<'a> {
    #[verifier::type_invariant]
    spec fn inv(self) -> bool {
        &&& self.pos <= self.range.count
        &&& self.bytes@.len() == 2 * self.range.count
    }

    /// The registers still to come.
    pub closed spec fn view(&self) -> Seq<u16> {
        spec_unpack_registers(self.bytes@).skip(self.pos as int)
    }

    /// The range that the registers belong to.
    pub closed spec fn spec_range(&self) -> AddressRange {
        self.range
    }

    /// An iterator over the `range.count` registers of `bytes`. Fails with
    /// `BadRegisterIteratorArgs` unless `bytes` has exactly two bytes for
    /// each.
    pub fn create(bytes: &'a [u8], range: AddressRange) -> (r: Result<Self, InternalError>)
        ensures
            bytes@.len() == 2 * range.count ==> (r matches Ok(it) && it@
                == spec_unpack_registers(bytes@) && it.spec_range() == range),
            bytes@.len() != 2 * range.count ==> (r matches Err(err) && err
                == InternalError::BadRegisterIteratorArgs),
    {
        let required_bytes: usize = 2 * (range.count as usize);
        if bytes.len() != required_bytes {
            return Err(InternalError::BadRegisterIteratorArgs);
        }
        let iterator = RegisterIterator { bytes, range, pos: 0 };
        assert(iterator@ =~= spec_unpack_registers(bytes@));
        Ok(iterator)
    }

    /// The range that the registers belong to.
    pub fn range(&self) -> (range: AddressRange)
        ensures
            range == self.spec_range(),
    {
        self.range
    }

    /// Takes the next register, or `None` when all registers of the range
    /// are taken.
    pub fn next(&mut self) -> (r: Option<u16>)
        ensures
            final(self).spec_range() == old(self).spec_range(),
            old(self)@.len() == 0 ==> r.is_none() && final(self)@ == old(self)@,
            old(self)@.len() > 0 ==> r == Some(old(self)@[0]) && final(self)@ == old(self)@.skip(
                1,
            ),
    {
        proof {
            use_type_invariant(&*self);
        }
        if self.pos == self.range.count {
            return None;
        }
        let pos: usize = 2 * (self.pos as usize);
        let high: u8 = self.bytes[pos];
        let low: u8 = self.bytes[pos + 1];
        self.pos = self.pos + 1;
        assert(self@ =~= old(self)@.skip(1));
        Some(u16_from_be(high, low))
    }

    /// Number of registers still to come, as lower and upper bound.
    pub fn size_hint(&self) -> (r: (usize, Option<usize>))
        ensures
            r.0 == self@.len(),
            r.1 == Some(r.0),
    {
        proof {
            use_type_invariant(self);
        }
        let remaining: usize = (self.range.count - self.pos) as usize;
        (remaining, Some(remaining))
    }

    /// Gathers the registers still to come.
    pub fn collect(self) -> (values: Vec<u16>)
        ensures
            values@ == self@,
    {
        let mut iterator = self;
        let mut values: Vec<u16> = Vec::new();
        loop
            invariant
                values@ + iterator@ == self@,
                values@.len() + iterator@.len() == self@.len(),
            ensures
                iterator@.len() == 0,
            decreases iterator@.len(),
        {
            match iterator.next() {
                Some(register) => {
                    values.push(register);
                },
                None => {
                    break ;
                },
            }
        }
        assert(values@ =~= values@ + iterator@);
        values
    }
}

/// Coils of a write request as a server receives them.
#[derive(Copy, Clone)]
pub struct WriteCoils<'a> {
    /// addresses written to
    pub range: AddressRange,
    /// the values, one for each address
    pub iterator: BitIterator<'a>,
}

impl<'a> WriteCoils<'a> {
    pub fn new(range: AddressRange, iterator: BitIterator<'a>) -> (r: Self)
        ensures
            r.range == range,
            r.iterator == iterator,
    {
        Self { range, iterator }
    }
}

/// Registers of a write request as a server receives them.
#[derive(Copy, Clone)]
pub struct WriteRegisters<'a> {
    /// addresses written to
    pub range: AddressRange,
    /// the values, one for each address
    pub iterator: RegisterIterator<'a>,
}

impl<'a> WriteRegisters<'a> {
    pub fn new(range: AddressRange, iterator: RegisterIterator<'a>) -> (r: Self)
        ensures
            r.range == range,
            r.iterator == iterator,
    {
        Self { range, iterator }
    }
}

impl<T: Copy> From<(u16, T)> for Indexed<T> {
    fn from(tuple: (u16, T)) -> (r: Self) {
        let (index, value) = tuple;
        Self::new(index, value)
    }
}

impl<T: Copy> vstd::std_specs::convert::FromSpecImpl<(u16, T)> for Indexed<T> {
    open spec fn obeys_from_spec() -> bool {
        true
    }

    open spec fn from_spec(tuple: (u16, T)) -> Self {
        Indexed { index: tuple.0, value: tuple.1 }
    }
}

/// The range that `count` values starting at `start` cover, or why there
/// is none: more than `0xFFFF` values are `CountTooBigForU16`; no value,
/// or values that reach beyond address `0xFFFF`, are `BadRange`.
pub open spec fn spec_values_range(start: u16, count: nat) -> Result<AddressRange, InvalidRequest> {
    if count > 0xFFFF {
        Err(InvalidRequest::CountTooBigForU16(count as usize))
    } else {
        match AddressRange::spec_try_from(start, count as u16) {
            Ok(range) => Ok(range),
            Err(err) => Err(InvalidRequest::BadRange(err)),
        }
    }
}

/// Collection of values and starting address, used when writing several
/// coils or registers at once.
#[derive(Debug, Clone)]
pub struct WriteMultiple<T> {
    /// starting address
    pub start: u16,
    /// vector of values
    pub values: Vec<T>,
}

impl<T> WriteMultiple<T> {
    /// Create new collection of values
    pub fn new(start: u16, values: Vec<T>) -> (r: Self)
        ensures
            r.start == start,
            r.values == values,
    {
        Self { start, values }
    }

    /// The range of addresses that the values cover. More than `0xFFFF`
    /// values give `CountTooBigForU16`; no value, or values that reach
    /// beyond address `0xFFFF`, give `BadRange`.
    pub fn to_address_range(&self) -> (r: Result<AddressRange, InvalidRequest>)
        ensures
            r == spec_values_range(self.start, self.values@.len()),
    {
        let len: usize = self.values.len();
        if len > 0xFFFF {
            return Err(InvalidRequest::CountTooBigForU16(len));
        }
        match AddressRange::try_from(self.start, len as u16) {
            Ok(range) => Ok(range),
            Err(err) => Err(InvalidRequest::BadRange(err)),
        }
    }
}

/// The coil state that a wire value stands for, if any.
pub open spec fn spec_coil_from_u16(value: u16) -> Result<bool, ADUParseError> {
    if value == coil::ON {
        Ok(true)
    } else if value == coil::OFF {
        Ok(false)
    } else {
        Err(ADUParseError::UnknownCoilState(value))
    }
}

/// The wire value of a coil state.
pub open spec fn spec_coil_to_u16(value: bool) -> u16 {
    if value {
        coil::ON
    } else {
        coil::OFF
    }
}

/// Decodes the value field of a single coil: `0xFF00` is on, `0x0000` is
/// off, anything else is `UnknownCoilState`.
pub fn coil_from_u16(value: u16) -> (r: Result<bool, ADUParseError>)
    ensures
        r == spec_coil_from_u16(value),
{
    match value {
        coil::ON => Ok(true),
        coil::OFF => Ok(false),
        _ => Err(ADUParseError::UnknownCoilState(value)),
    }
}

/// Encodes a coil state as the value field of a single coil.
pub fn coil_to_u16(value: bool) -> (r: u16)
    ensures
        r == spec_coil_to_u16(value),
{
    if value {
        coil::ON
    } else {
        coil::OFF
    }
}

/// Decoding the wire value of a coil state gives the state back.
pub proof fn lemma_coil_roundtrip(value: bool)
    ensures
        spec_coil_from_u16(spec_coil_to_u16(value)) == Ok::<bool, ADUParseError>(value),
{
}

impl AddressRange {
    /// Whether the range holds at least one address and none beyond
    /// `0xFFFF`.
    pub open spec fn valid(self) -> bool {
        self.count >= 1 && self.start + self.count <= 0x10000
    }

    /// The range of `count` addresses from `start`, or why there is none.
    pub open spec fn spec_try_from(start: u16, count: u16) -> Result<AddressRange, InvalidRange> {
        if count == 0 {
            Err(InvalidRange::CountOfZero)
        } else if start + count > 0x10000 {
            Err(InvalidRange::AddressOverflow(start, count))
        } else {
            Ok(AddressRange { start, count })
        }
    }

    /// Create a new address range. A count of zero gives `CountOfZero`; a
    /// last address beyond `0xFFFF` gives `AddressOverflow`.
    pub fn try_from(start: u16, count: u16) -> (r: Result<Self, InvalidRange>)
        ensures
            r == Self::spec_try_from(start, count),
            r matches Ok(range) ==> range.valid(),
    {
        if count == 0 {
            return Err(InvalidRange::CountOfZero);
        }
        let max_start: u16 = u16::MAX - (count - 1);
        if start > max_start {
            return Err(InvalidRange::AddressOverflow(start, count));
        }
        Ok(Self { start, count })
    }

    /// Converts to std::ops::Range
    pub fn to_std_range(self) -> (r: std::ops::Range<usize>)
        ensures
            r.start == self.start,
            r.end == self.start + self.count,
    {
        let start: usize = self.start as usize;
        let end: usize = start + (self.count as usize);
        start..end
    }
}

/// Every range that `try_from` makes holds at least one address, and its
/// start and count add up to at most `0x10000`; and `try_from` makes every
/// such range.
pub proof fn lemma_address_range_valid(start: u16, count: u16)
    ensures
        AddressRange::spec_try_from(start, count) matches Ok(range) ==> range.count >= 1
            && range.start + range.count <= 0x10000 && range.start == start && range.count
            == count,
        count >= 1 && start + count <= 0x10000 ==> AddressRange::spec_try_from(start, count)
            == Ok::<AddressRange, InvalidRange>(AddressRange { start, count }),
{
}

impl<T> Indexed<T> {
    /// Create a new indexed value
    pub fn new(index: u16, value: T) -> (r: Self)
        ensures
            r.index == index,
            r.value == value,
    {
        Indexed { index, value }
    }
}

impl UnitId {
    /// Create a new UnitId
    pub fn new(value: u8) -> (r: Self)
        ensures
            r.value == value,
    {
        Self { value }
    }

    /// Create the default UnitId of `0xFF`
    pub fn default() -> (r: Self)
        ensures
            r.value == 0xFF,
    {
        Self { value: 0xFF }
    }
}

} // verus!
