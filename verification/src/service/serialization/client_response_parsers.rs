//! Decoders of response bodies, as a client needs them.

use vstd::prelude::*;

use crate::error::details::ADUParseError;
use crate::error::Error;
use crate::service::serialization::server_request_parsers::spec_parse_address_range;
use crate::service::traits::{ParseRequest, ParseResponse};
use crate::types::{
    coil_to_u16, spec_coil_to_u16, spec_values_range, AddressRange, Indexed, WriteMultiple,
};
use crate::util::bits::{get_bit, num_bytes_for_bits, spec_bit, spec_num_bytes_for_bits};
use crate::util::cursor::{spec_u16_from_be, ReadCursor};

verus! {

/// The first two 16-bit values of a body, if it has four bytes.
pub open spec fn spec_two_u16(bytes: Seq<u8>) -> Option<(u16, u16)> {
    if bytes.len() < 4 {
        None
    } else {
        Some((spec_u16_from_be(bytes[0], bytes[1]), spec_u16_from_be(bytes[2], bytes[3])))
    }
}

/// The bits of a response to a read of `range`, each with its address.
pub open spec fn spec_indexed_bits(bytes: Seq<u8>, range: AddressRange) -> Seq<Indexed<bool>> {
    Seq::new(
        range.count as nat,
        |i: int|
            Indexed { index: (range.start + i) as u16, value: spec_bit(bytes[i / 8], (i % 8) as u8) },
    )
}

/// The registers of a response to a read of `range`, each with its address.
pub open spec fn spec_indexed_registers(bytes: Seq<u8>, range: AddressRange) -> Seq<
    Indexed<u16>,
> {
    Seq::new(
        range.count as nat,
        |i: int|
            Indexed {
                index: (range.start + i) as u16,
                value: spec_u16_from_be(bytes[2 * i], bytes[2 * i + 1]),
            },
    )
}

/// Reads two 16-bit values from the cursor.
pub fn read_two_u16(cursor: &mut ReadCursor) -> (r: Result<(u16, u16), ADUParseError>)
    ensures
        match r {
            Ok(pair) => spec_two_u16(old(cursor)@) == Some(pair) && final(cursor)@ == old(
                cursor,
            )@.skip(4),
            Err(err) => spec_two_u16(old(cursor)@).is_none() && err
                == ADUParseError::InsufficientBytes,
        },
{
    let first: u16 = match cursor.read_u16_be() {
        Ok(value) => value,
        Err(err) => {
            return Err(err);
        },
    };
    let second: u16 = match cursor.read_u16_be() {
        Ok(value) => value,
        Err(err) => {
            return Err(err);
        },
    };
    assert(cursor@ =~= old(cursor)@.skip(4));
    Ok((first, second))
}

impl ParseResponse<Indexed<u16>> for Indexed<u16> {
    open spec fn valid_request(request: &Indexed<u16>) -> bool {
        true
    }

    open spec fn spec_parse_response(bytes: Seq<u8>, request: &Indexed<u16>) -> Result<
        Indexed<u16>,
        Error,
    > {
        match spec_two_u16(bytes) {
            None => Err(Error::BadResponse(ADUParseError::InsufficientBytes)),
            Some((index, value)) => if index == request.index && value == request.value {
                Ok(Indexed { index, value })
            } else {
                Err(Error::BadResponse(ADUParseError::ReplyEchoMismatch))
            },
        }
    }

    open spec fn spec_parsed_len(bytes: Seq<u8>) -> nat {
        4
    }

    /// Decodes the echo of a write of one register: address and value,
    /// which must be those of the request.
    fn parse_response(cursor: &mut ReadCursor, request: &Indexed<u16>) -> (r: Result<Self, Error>) {
        let (index, value) = match read_two_u16(cursor) {
            Ok(pair) => pair,
            Err(err) => {
                return Err(Error::BadResponse(err));
            },
        };
        let response = Indexed::new(index, value);
        if request.index != response.index || request.value != response.value {
            return Err(Error::BadResponse(ADUParseError::ReplyEchoMismatch));
        }
        Ok(response)
    }
}

impl ParseResponse<Indexed<bool>> for Indexed<bool> {
    open spec fn valid_request(request: &Indexed<bool>) -> bool {
        true
    }

    open spec fn spec_parse_response(bytes: Seq<u8>, request: &Indexed<bool>) -> Result<
        Indexed<bool>,
        Error,
    > {
        match spec_two_u16(bytes) {
            None => Err(Error::BadResponse(ADUParseError::InsufficientBytes)),
            Some((index, raw)) => if index == request.index && raw == spec_coil_to_u16(
                request.value,
            ) {
                Ok(*request)
            } else {
                Err(Error::BadResponse(ADUParseError::ReplyEchoMismatch))
            },
        }
    }

    open spec fn spec_parsed_len(bytes: Seq<u8>) -> nat {
        4
    }

    /// Decodes the echo of a write of one coil: the address and the wire
    /// value of the state, which must be those of the request. An echo
    /// with any other value, whether it stands for a state or not, is a
    /// mismatch.
    fn parse_response(cursor: &mut ReadCursor, request: &Indexed<bool>) -> (r: Result<
        Self,
        Error,
    >) {
        let (index, raw) = match read_two_u16(cursor) {
            Ok(pair) => pair,
            Err(err) => {
                return Err(Error::BadResponse(err));
            },
        };
        if index != request.index || raw != coil_to_u16(request.value) {
            return Err(Error::BadResponse(ADUParseError::ReplyEchoMismatch));
        }
        Ok(Indexed::new(index, request.value))
    }
}

impl ParseResponse<AddressRange> for Vec<Indexed<bool>> {
    open spec fn valid_request(request: &AddressRange) -> bool {
        request.valid()
    }

    open spec fn spec_parse_response(bytes: Seq<u8>, request: &AddressRange) -> Result<
        Seq<Indexed<bool>>,
        Error,
    > {
        let expected = spec_num_bytes_for_bits(request.count as int);
        if bytes.len() < 1 {
            Err(Error::BadResponse(ADUParseError::InsufficientBytes))
        } else if bytes[0] != expected {
            Err(
                Error::BadResponse(
                    ADUParseError::RequestByteCountMismatch(expected as usize, bytes[0] as usize),
                ),
            )
        } else if bytes[0] != bytes.len() - 1 {
            Err(
                Error::BadResponse(
                    ADUParseError::InsufficientBytesForByteCount(
                        bytes[0] as usize,
                        (bytes.len() - 1) as usize,
                    ),
                ),
            )
        } else {
            Ok(spec_indexed_bits(bytes.skip(1), *request))
        }
    }

    open spec fn spec_parsed_len(bytes: Seq<u8>) -> nat {
        bytes.len()
    }

    /// Decodes the response to a read of coils or discrete inputs: a byte
    /// count, which must be the one that the request calls for and the
    /// number of bytes that follow, then the bits, lowest bit of the first
    /// byte first. Bits beyond the count of the request are ignored.
    #[verifier::loop_isolation(false)]
    fn parse_response(cursor: &mut ReadCursor, request: &AddressRange) -> (r: Result<Self, Error>) {
        let byte_count: usize = match cursor.read_u8() {
            Ok(value) => value as usize,
            Err(err) => {
                return Err(Error::BadResponse(err));
            },
        };
        // how many bytes should we have?
        let expected_byte_count: usize = num_bytes_for_bits(request.count);
        if byte_count != expected_byte_count {
            return Err(
                Error::BadResponse(
                    ADUParseError::RequestByteCountMismatch(expected_byte_count, byte_count),
                ),
            );
        }
        if byte_count != cursor.len() {
            return Err(
                Error::BadResponse(
                    ADUParseError::InsufficientBytesForByteCount(byte_count, cursor.len()),
                ),
            );
        }
        let bytes: &[u8] = match cursor.read_bytes(byte_count) {
            Ok(bytes) => bytes,
            Err(err) => {
                return Err(Error::BadResponse(err));
            },
        };
        assert(bytes@ =~= old(cursor)@.skip(1));
        assert(cursor@ =~= old(cursor)@.skip(old(cursor)@.len() as int));
        let mut values: Vec<Indexed<bool>> = Vec::with_capacity(request.count as usize);
        let mut count: u16 = 0;
        let mut byte_index: usize = 0;
        while byte_index < bytes.len()
            invariant
                request.valid(),
                byte_index <= bytes.len(),
                8 * bytes.len() >= request.count,
                count <= request.count,
                count == 8 * byte_index || (count == request.count && count < 8 * byte_index),
                values@ == spec_indexed_bits(bytes@, *request).take(count as int),
            decreases bytes.len() - byte_index,
        {
            let byte: u8 = bytes[byte_index];
            let mut i: u8 = 0;
            while i < 8
                invariant
                    request.valid(),
                    byte_index < bytes.len(),
                    byte == bytes@[byte_index as int],
                    i <= 8,
                    count <= request.count,
                    count == 8 * byte_index + i || (count == request.count && count < 8
                        * byte_index + i),
                    values@ == spec_indexed_bits(bytes@, *request).take(count as int),
                decreases 8 - i,
            {
                // stop at the count, also before the end of the byte
                if count == request.count {
                    assert(values@ =~= spec_indexed_bits(bytes@, *request));
                    return Ok(values);
                }
                // low order bits first
                let value: bool = get_bit(byte, i);
                values.push(Indexed::new(count + request.start, value));
                assert(values@ =~= spec_indexed_bits(bytes@, *request).take(count + 1));
                count = count + 1;
                i = i + 1;
            }
            byte_index = byte_index + 1;
        }
        assert(values@ =~= spec_indexed_bits(bytes@, *request));
        Ok(values)
    }
}

impl ParseResponse<AddressRange> for Vec<Indexed<u16>> {
    open spec fn valid_request(request: &AddressRange) -> bool {
        request.valid()
    }

    open spec fn spec_parse_response(bytes: Seq<u8>, request: &AddressRange) -> Result<
        Seq<Indexed<u16>>,
        Error,
    > {
        let expected = 2 * request.count;
        if bytes.len() < 1 {
            Err(Error::BadResponse(ADUParseError::InsufficientBytes))
        } else if bytes[0] != expected {
            Err(
                Error::BadResponse(
                    ADUParseError::RequestByteCountMismatch(expected as usize, bytes[0] as usize),
                ),
            )
        } else if expected != bytes.len() - 1 {
            Err(
                Error::BadResponse(
                    ADUParseError::InsufficientBytesForByteCount(
                        bytes[0] as usize,
                        (bytes.len() - 1) as usize,
                    ),
                ),
            )
        } else {
            Ok(spec_indexed_registers(bytes.skip(1), *request))
        }
    }

    open spec fn spec_parsed_len(bytes: Seq<u8>) -> nat {
        bytes.len()
    }

    /// Decodes the response to a read of holding or input registers: a
    /// byte count, which must be twice the count of the request and the
    /// number of bytes that follow, then the registers, high byte first.
    fn parse_response(cursor: &mut ReadCursor, request: &AddressRange) -> (r: Result<Self, Error>) {
        let byte_count: usize = match cursor.read_u8() {
            Ok(value) => value as usize,
            Err(err) => {
                return Err(Error::BadResponse(err));
            },
        };
        // how many bytes should we have?
        let expected_byte_count: usize = 2 * (request.count as usize);
        if byte_count != expected_byte_count {
            return Err(
                Error::BadResponse(
                    ADUParseError::RequestByteCountMismatch(expected_byte_count, byte_count),
                ),
            );
        }
        if expected_byte_count != cursor.len() {
            return Err(
                Error::BadResponse(
                    ADUParseError::InsufficientBytesForByteCount(byte_count, cursor.len()),
                ),
            );
        }
        let ghost body = cursor@;
        assert(body =~= old(cursor)@.skip(1));
        let mut values: Vec<Indexed<u16>> = Vec::with_capacity(request.count as usize);
        let mut count: u16 = 0;
        while !cursor.is_empty()
            invariant
                request.valid(),
                body.len() == 2 * request.count,
                count <= request.count,
                cursor@ == body.skip(2 * count),
                values@ == spec_indexed_registers(body, *request).take(count as int),
            decreases cursor@.len(),
        {
            let value: u16 = match cursor.read_u16_be() {
                Ok(value) => value,
                Err(err) => {
                    return Err(Error::BadResponse(err));
                },
            };
            values.push(Indexed::new(request.start + count, value));
            assert(values@ =~= spec_indexed_registers(body, *request).take(count + 1));
            count = count + 1;
            assert(cursor@ =~= body.skip(2 * count));
        }
        assert(values@ =~= spec_indexed_registers(body, *request));
        assert(cursor@ =~= old(cursor)@.skip(old(cursor)@.len() as int));
        Ok(values)
    }
}

/// What the echo of a write of several values decodes to: the range
/// written, which must be the one that the `count` values from `start`
/// cover.
pub open spec fn spec_parse_write_multiple_echo(bytes: Seq<u8>, start: u16, count: nat) -> Result<
    AddressRange,
    Error,
> {
    match spec_values_range(start, count) {
        Err(err) => Err(Error::BadRequest(err)),
        Ok(range) => match spec_parse_address_range(bytes) {
            Err(err) => Err(err),
            Ok(parsed) => if parsed == range {
                Ok(parsed)
            } else {
                Err(Error::BadResponse(ADUParseError::ReplyEchoMismatch))
            },
        },
    }
}

impl ParseResponse<WriteMultiple<bool>> for AddressRange {
    open spec fn valid_request(request: &WriteMultiple<bool>) -> bool {
        true
    }

    open spec fn spec_parse_response(bytes: Seq<u8>, request: &WriteMultiple<bool>) -> Result<
        AddressRange,
        Error,
    > {
        spec_parse_write_multiple_echo(bytes, request.start, request.values@.len())
    }

    open spec fn spec_parsed_len(bytes: Seq<u8>) -> nat {
        4
    }

    /// Decodes the echo of a write of several coils: start and count,
    /// which must be those of the request.
    fn parse_response(cursor: &mut ReadCursor, request: &WriteMultiple<bool>) -> (r: Result<
        Self,
        Error,
    >) {
        let range: AddressRange = match request.to_address_range() {
            Ok(range) => range,
            Err(err) => {
                return Err(Error::BadRequest(err));
            },
        };
        let parsed: AddressRange = match AddressRange::parse(cursor) {
            Ok(parsed) => parsed,
            Err(err) => {
                return Err(err);
            },
        };
        if range != parsed {
            return Err(Error::BadResponse(ADUParseError::ReplyEchoMismatch));
        }
        Ok(parsed)
    }
}

impl ParseResponse<WriteMultiple<u16>> for AddressRange {
    open spec fn valid_request(request: &WriteMultiple<u16>) -> bool {
        true
    }

    open spec fn spec_parse_response(bytes: Seq<u8>, request: &WriteMultiple<u16>) -> Result<
        AddressRange,
        Error,
    > {
        spec_parse_write_multiple_echo(bytes, request.start, request.values@.len())
    }

    open spec fn spec_parsed_len(bytes: Seq<u8>) -> nat {
        4
    }

    /// Decodes the echo of a write of several registers: start and count,
    /// which must be those of the request.
    fn parse_response(cursor: &mut ReadCursor, request: &WriteMultiple<u16>) -> (r: Result<
        Self,
        Error,
    >) {
        let range: AddressRange = match request.to_address_range() {
            Ok(range) => range,
            Err(err) => {
                return Err(Error::BadRequest(err));
            },
        };
        let parsed: AddressRange = match AddressRange::parse(cursor) {
            Ok(parsed) => parsed,
            Err(err) => {
                return Err(err);
            },
        };
        if range != parsed {
            return Err(Error::BadResponse(ADUParseError::ReplyEchoMismatch));
        }
        Ok(parsed)
    }
}

} // verus!
