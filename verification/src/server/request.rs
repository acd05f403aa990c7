//! Requests as a server receives them.

use vstd::prelude::*;

use crate::client::message::RequestView;
use crate::error::details::{ADUParseError, ExceptionCode};
use crate::error::Error;
use crate::service::function::FunctionCode;
use crate::service::serialization::client_response_parsers::spec_two_u16;
use crate::service::serialization::serializers::spec_two_u16_to_be;
use crate::service::serialization::server_request_parsers::spec_parse_address_range;
use crate::service::traits::ParseRequest;
use crate::service::validation::range::{
    check_validity_for_read_bits, check_validity_for_read_registers,
    check_validity_for_write_multiple_coils, check_validity_for_write_multiple_registers,
    spec_check_validity,
};
use crate::types::{
    lemma_coil_roundtrip, AddressRange, BitIterator, Indexed, RegisterIterator, WriteCoils,
    WriteRegisters,
};
use crate::util::bits::{
    lemma_pack_bits_roundtrip, lemma_pack_registers_roundtrip, num_bytes_for_bits,
    spec_num_bytes_for_bits, spec_pack_bits, spec_pack_registers, spec_unpack_bits,
    spec_unpack_registers,
};
use crate::util::cursor::{lemma_u16_be_roundtrip, ReadCursor};

verus! {

/// A request decoded from the bytes of a frame, which the values of a
/// write of several points still lie in.
#[derive(Clone, Copy)]
pub enum ServerRequest<'a> {
    ReadCoils(AddressRange),
    ReadDiscreteInputs(AddressRange),
    ReadHoldingRegisters(AddressRange),
    ReadInputRegisters(AddressRange),
    WriteSingleCoil(Indexed<bool>),
    WriteSingleRegister(Indexed<u16>),
    WriteMultipleCoils(WriteCoils<'a>),
    WriteMultipleRegisters(WriteRegisters<'a>),
}

impl<'a> View for ServerRequest<'a> {
    type V = RequestView;

    open spec fn view(&self) -> RequestView {
        match self {
            ServerRequest::ReadCoils(range) => RequestView::ReadCoils(*range),
            ServerRequest::ReadDiscreteInputs(range) => RequestView::ReadDiscreteInputs(*range),
            ServerRequest::ReadHoldingRegisters(range) => RequestView::ReadHoldingRegisters(
                *range,
            ),
            ServerRequest::ReadInputRegisters(range) => RequestView::ReadInputRegisters(*range),
            ServerRequest::WriteSingleCoil(value) => RequestView::WriteSingleCoil(*value),
            ServerRequest::WriteSingleRegister(value) => RequestView::WriteSingleRegister(*value),
            ServerRequest::WriteMultipleCoils(write) => RequestView::WriteMultipleCoils(
                write.range.start,
                write.iterator@,
            ),
            ServerRequest::WriteMultipleRegisters(write) => RequestView::WriteMultipleRegisters(
                write.range.start,
                write.iterator@,
            ),
        }
    }
}

/// A range read from a body and held to a limit.
pub open spec fn spec_parse_limited_range(body: Seq<u8>, max: u16) -> Result<AddressRange, Error> {
    match spec_parse_address_range(body) {
        Err(err) => Err(err),
        Ok(range) => match spec_check_validity(range, max) {
            Err(err) => Err(Error::BadRequest(err)),
            Ok(()) => Ok(range),
        },
    }
}

/// The bytes that carry the values of a write of several points: a byte
/// count, which must be `expected`, and as many bytes behind it.
pub open spec fn spec_parse_counted_bytes(rest: Seq<u8>, expected: int) -> Result<Seq<u8>, Error> {
    if rest.len() < 1 {
        Err(Error::BadResponse(ADUParseError::InsufficientBytes))
    } else if rest[0] != expected {
        Err(
            Error::BadResponse(
                ADUParseError::RequestByteCountMismatch(expected as usize, rest[0] as usize),
            ),
        )
    } else if rest.len() - 1 < rest[0] {
        Err(Error::BadResponse(ADUParseError::InsufficientBytes))
    } else {
        Ok(rest.skip(1).take(rest[0] as int))
    }
}

/// What the body of a request with the given function decodes to.
pub open spec fn spec_parse_request_body(function: FunctionCode, body: Seq<u8>) -> Result<
    RequestView,
    Error,
> {
    match function {
        FunctionCode::ReadCoils => match spec_parse_limited_range(body, 2000) {
            Ok(range) => Ok(RequestView::ReadCoils(range)),
            Err(err) => Err(err),
        },
        FunctionCode::ReadDiscreteInputs => match spec_parse_limited_range(body, 2000) {
            Ok(range) => Ok(RequestView::ReadDiscreteInputs(range)),
            Err(err) => Err(err),
        },
        FunctionCode::ReadHoldingRegisters => match spec_parse_limited_range(body, 125) {
            Ok(range) => Ok(RequestView::ReadHoldingRegisters(range)),
            Err(err) => Err(err),
        },
        FunctionCode::ReadInputRegisters => match spec_parse_limited_range(body, 125) {
            Ok(range) => Ok(RequestView::ReadInputRegisters(range)),
            Err(err) => Err(err),
        },
        FunctionCode::WriteSingleCoil => match Indexed::<bool>::spec_parse(body) {
            Ok(value) => Ok(RequestView::WriteSingleCoil(value)),
            Err(err) => Err(err),
        },
        FunctionCode::WriteSingleRegister => match Indexed::<u16>::spec_parse(body) {
            Ok(value) => Ok(RequestView::WriteSingleRegister(value)),
            Err(err) => Err(err),
        },
        FunctionCode::WriteMultipleCoils => match spec_parse_limited_range(body, 1968) {
            Err(err) => Err(err),
            Ok(range) => match spec_parse_counted_bytes(
                body.skip(4),
                spec_num_bytes_for_bits(range.count as int),
            ) {
                Err(err) => Err(err),
                Ok(bytes) => Ok(
                    RequestView::WriteMultipleCoils(
                        range.start,
                        spec_unpack_bits(bytes, range.count as nat),
                    ),
                ),
            },
        },
        FunctionCode::WriteMultipleRegisters => match spec_parse_limited_range(body, 123) {
            Err(err) => Err(err),
            Ok(range) => match spec_parse_counted_bytes(body.skip(4), 2 * range.count) {
                Err(err) => Err(err),
                Ok(bytes) => Ok(
                    RequestView::WriteMultipleRegisters(range.start, spec_unpack_registers(bytes)),
                ),
            },
        },
    }
}

/// What a protocol data unit decodes to as a request. A function byte
/// that stands for no function gives the exception `IllegalFunction`.
pub open spec fn spec_parse_request(pdu: Seq<u8>) -> Result<RequestView, Error> {
    if pdu.len() < 1 {
        Err(Error::BadResponse(ADUParseError::InsufficientBytes))
    } else {
        match FunctionCode::spec_get(pdu[0]) {
            None => Err(Error::Exception(ExceptionCode::IllegalFunction)),
            Some(function) => spec_parse_request_body(function, pdu.skip(1)),
        }
    }
}

/// Reads a range and holds it to the limit of its kind of request.
fn parse_limited_range(cursor: &mut ReadCursor, function: FunctionCode) -> (r: Result<
    AddressRange,
    Error,
>)
    requires
        function == FunctionCode::ReadCoils || function == FunctionCode::ReadDiscreteInputs
            || function == FunctionCode::ReadHoldingRegisters || function
            == FunctionCode::ReadInputRegisters || function == FunctionCode::WriteMultipleCoils
            || function == FunctionCode::WriteMultipleRegisters,
    ensures
        r == spec_parse_limited_range(old(cursor)@, spec_limit(function)),
        r matches Ok(range) ==> range.valid() && range.count <= spec_limit(function)
            && final(cursor)@ == old(cursor)@.skip(4),
{
    let range: AddressRange = match AddressRange::parse(cursor) {
        Ok(range) => range,
        Err(err) => {
            return Err(err);
        },
    };
    let checked = match function {
        FunctionCode::ReadCoils => check_validity_for_read_bits(range),
        FunctionCode::ReadDiscreteInputs => check_validity_for_read_bits(range),
        FunctionCode::ReadHoldingRegisters => check_validity_for_read_registers(range),
        FunctionCode::ReadInputRegisters => check_validity_for_read_registers(range),
        FunctionCode::WriteMultipleCoils => check_validity_for_write_multiple_coils(range),
        _ => check_validity_for_write_multiple_registers(range),
    };
    match checked {
        Ok(()) => Ok(range),
        Err(err) => Err(Error::BadRequest(err)),
    }
}

/// Most points that one request with the given function may name.
pub open spec fn spec_limit(function: FunctionCode) -> u16 {
    match function {
        FunctionCode::ReadCoils => 2000,
        FunctionCode::ReadDiscreteInputs => 2000,
        FunctionCode::ReadHoldingRegisters => 125,
        FunctionCode::ReadInputRegisters => 125,
        FunctionCode::WriteSingleCoil => 1,
        FunctionCode::WriteSingleRegister => 1,
        FunctionCode::WriteMultipleCoils => 1968,
        FunctionCode::WriteMultipleRegisters => 123,
    }
}

/// Reads a byte count, which must be `expected`, and the bytes that it
/// counts.
fn parse_counted_bytes<'a>(cursor: &mut ReadCursor<'a>, expected: usize) -> (r: Result<
    &'a [u8],
    Error,
>)
    ensures
        match r {
            Ok(bytes) => spec_parse_counted_bytes(old(cursor)@, expected as int) == Ok::<
                Seq<u8>,
                Error,
            >(bytes@),
            Err(err) => spec_parse_counted_bytes(old(cursor)@, expected as int) == Err::<
                Seq<u8>,
                Error,
            >(err),
        },
{
    let byte_count: usize = match cursor.read_u8() {
        Ok(value) => value as usize,
        Err(err) => {
            return Err(Error::BadResponse(err));
        },
    };
    if byte_count != expected {
        return Err(
            Error::BadResponse(ADUParseError::RequestByteCountMismatch(expected, byte_count)),
        );
    }
    match cursor.read_bytes(byte_count) {
        Ok(bytes) => Ok(bytes),
        Err(err) => Err(Error::BadResponse(err)),
    }
}

impl<'a> ServerRequest<'a> {
    /// The function that the request calls.
    pub fn function(&self) -> (function: FunctionCode)
        ensures
            function == self@.function(),
    {
        match self {
            ServerRequest::ReadCoils(_) => FunctionCode::ReadCoils,
            ServerRequest::ReadDiscreteInputs(_) => FunctionCode::ReadDiscreteInputs,
            ServerRequest::ReadHoldingRegisters(_) => FunctionCode::ReadHoldingRegisters,
            ServerRequest::ReadInputRegisters(_) => FunctionCode::ReadInputRegisters,
            ServerRequest::WriteSingleCoil(_) => FunctionCode::WriteSingleCoil,
            ServerRequest::WriteSingleRegister(_) => FunctionCode::WriteSingleRegister,
            ServerRequest::WriteMultipleCoils(_) => FunctionCode::WriteMultipleCoils,
            ServerRequest::WriteMultipleRegisters(_) => FunctionCode::WriteMultipleRegisters,
        }
    }

    /// Whether the request is one that decoding gives: its range is valid
    /// and within the limit of its kind, and a write of several points
    /// carries one value for each address.
    pub open spec fn wf(&self) -> bool {
        match self {
            ServerRequest::ReadCoils(range) => range.valid() && range.count <= 2000,
            ServerRequest::ReadDiscreteInputs(range) => range.valid() && range.count <= 2000,
            ServerRequest::ReadHoldingRegisters(range) => range.valid() && range.count <= 125,
            ServerRequest::ReadInputRegisters(range) => range.valid() && range.count <= 125,
            ServerRequest::WriteSingleCoil(_) => true,
            ServerRequest::WriteSingleRegister(_) => true,
            ServerRequest::WriteMultipleCoils(write) => write.range.valid() && write.range.count
                <= 1968 && write.iterator.spec_range() == write.range && write.iterator@.len()
                == write.range.count,
            ServerRequest::WriteMultipleRegisters(write) => write.range.valid()
                && write.range.count <= 123 && write.iterator.spec_range() == write.range
                && write.iterator@.len() == write.range.count,
        }
    }

    /// Decodes the body of a request with the given function.
    pub fn parse(function: FunctionCode, cursor: &mut ReadCursor<'a>) -> (r: Result<Self, Error>)
        ensures
            match r {
                Ok(request) => spec_parse_request_body(function, old(cursor)@) == Ok::<
                    RequestView,
                    Error,
                >(request@) && request.wf(),
                Err(err) => spec_parse_request_body(function, old(cursor)@) == Err::<
                    RequestView,
                    Error,
                >(err),
            },
    {
        match function {
            FunctionCode::ReadCoils => match parse_limited_range(cursor, function) {
                Ok(range) => Ok(ServerRequest::ReadCoils(range)),
                Err(err) => Err(err),
            },
            FunctionCode::ReadDiscreteInputs => match parse_limited_range(cursor, function) {
                Ok(range) => Ok(ServerRequest::ReadDiscreteInputs(range)),
                Err(err) => Err(err),
            },
            FunctionCode::ReadHoldingRegisters => match parse_limited_range(cursor, function) {
                Ok(range) => Ok(ServerRequest::ReadHoldingRegisters(range)),
                Err(err) => Err(err),
            },
            FunctionCode::ReadInputRegisters => match parse_limited_range(cursor, function) {
                Ok(range) => Ok(ServerRequest::ReadInputRegisters(range)),
                Err(err) => Err(err),
            },
            FunctionCode::WriteSingleCoil => match Indexed::<bool>::parse(cursor) {
                Ok(value) => Ok(ServerRequest::WriteSingleCoil(value)),
                Err(err) => Err(err),
            },
            FunctionCode::WriteSingleRegister => match Indexed::<u16>::parse(cursor) {
                Ok(value) => Ok(ServerRequest::WriteSingleRegister(value)),
                Err(err) => Err(err),
            },
            FunctionCode::WriteMultipleCoils => {
                let range: AddressRange = match parse_limited_range(cursor, function) {
                    Ok(range) => range,
                    Err(err) => {
                        return Err(err);
                    },
                };
                let expected: usize = num_bytes_for_bits(range.count);
                let bytes: &'a [u8] = match parse_counted_bytes(cursor, expected) {
                    Ok(bytes) => bytes,
                    Err(err) => {
                        return Err(err);
                    },
                };
                match BitIterator::create(bytes, range) {
                    Ok(iterator) => Ok(
                        ServerRequest::WriteMultipleCoils(WriteCoils::new(range, iterator)),
                    ),
                    Err(err) => Err(Error::Internal(err)),
                }
            },
            FunctionCode::WriteMultipleRegisters => {
                let range: AddressRange = match parse_limited_range(cursor, function) {
                    Ok(range) => range,
                    Err(err) => {
                        return Err(err);
                    },
                };
                let expected: usize = 2 * (range.count as usize);
                let bytes: &'a [u8] = match parse_counted_bytes(cursor, expected) {
                    Ok(bytes) => bytes,
                    Err(err) => {
                        return Err(err);
                    },
                };
                match RegisterIterator::create(bytes, range) {
                    Ok(iterator) => Ok(
                        ServerRequest::WriteMultipleRegisters(WriteRegisters::new(range, iterator)),
                    ),
                    Err(err) => Err(Error::Internal(err)),
                }
            },
        }
    }

    /// Decodes a protocol data unit as a request. A function byte that
    /// stands for no function gives the exception `IllegalFunction`.
    pub fn parse_pdu(pdu: &'a [u8]) -> (r: Result<Self, Error>)
        ensures
            match r {
                Ok(request) => spec_parse_request(pdu@) == Ok::<RequestView, Error>(request@)
                    && request.wf(),
                Err(err) => spec_parse_request(pdu@) == Err::<RequestView, Error>(err),
            },
    {
        let mut cursor = ReadCursor::new(pdu);
        let byte: u8 = match cursor.read_u8() {
            Ok(value) => value,
            Err(err) => {
                return Err(Error::BadResponse(err));
            },
        };
        match FunctionCode::get(byte) {
            None => Err(Error::Exception(ExceptionCode::IllegalFunction)),
            Some(function) => Self::parse(function, &mut cursor),
        }
    }
}

/// Two 16-bit values written high byte first are read back from the front
/// of what they were written into.
pub proof fn lemma_two_u16_roundtrip(first: u16, second: u16, rest: Seq<u8>)
    ensures
        spec_two_u16(spec_two_u16_to_be(first, second) + rest) == Some((first, second)),
        (spec_two_u16_to_be(first, second) + rest).skip(4) == rest,
        spec_two_u16_to_be(first, second).len() == 4,
{
    lemma_u16_be_roundtrip(first);
    lemma_u16_be_roundtrip(second);
    assert((spec_two_u16_to_be(first, second) + rest).skip(4) =~= rest);
}

/// Decoding the protocol data unit of a request that passes its check
/// gives the request back.
pub proof fn lemma_request_roundtrip(request: RequestView)
    requires
        request.check_validity().is_ok(),
    ensures
        request.pdu().is_ok(),
        spec_parse_request(request.pdu().unwrap()) == Ok::<RequestView, Error>(request),
{
    let function = request.function();
    let body = request.body().unwrap();
    let empty = Seq::<u8>::empty();
    match request {
        RequestView::ReadCoils(range) => {
            lemma_two_u16_roundtrip(range.start, range.count, empty);
            assert(body =~= spec_two_u16_to_be(range.start, range.count) + empty);
        },
        RequestView::ReadDiscreteInputs(range) => {
            lemma_two_u16_roundtrip(range.start, range.count, empty);
            assert(body =~= spec_two_u16_to_be(range.start, range.count) + empty);
        },
        RequestView::ReadHoldingRegisters(range) => {
            lemma_two_u16_roundtrip(range.start, range.count, empty);
            assert(body =~= spec_two_u16_to_be(range.start, range.count) + empty);
        },
        RequestView::ReadInputRegisters(range) => {
            lemma_two_u16_roundtrip(range.start, range.count, empty);
            assert(body =~= spec_two_u16_to_be(range.start, range.count) + empty);
        },
        RequestView::WriteSingleCoil(value) => {
            lemma_coil_roundtrip(value.value);
            lemma_two_u16_roundtrip(
                value.index,
                crate::types::spec_coil_to_u16(value.value),
                empty,
            );
            assert(body =~= spec_two_u16_to_be(
                value.index,
                crate::types::spec_coil_to_u16(value.value),
            ) + empty);
        },
        RequestView::WriteSingleRegister(value) => {
            lemma_two_u16_roundtrip(value.index, value.value, empty);
            assert(body =~= spec_two_u16_to_be(value.index, value.value) + empty);
        },
        RequestView::WriteMultipleCoils(start, values) => {
            let count = values.len() as u16;
            let packed = spec_pack_bits(values);
            let rest = seq![packed.len() as u8] + packed;
            lemma_pack_bits_roundtrip(values);
            lemma_two_u16_roundtrip(start, count, rest);
            assert(rest.skip(1).take(packed.len() as int) =~= packed);
            assert(body =~= spec_two_u16_to_be(start, count) + rest);
        },
        RequestView::WriteMultipleRegisters(start, values) => {
            let count = values.len() as u16;
            let packed = spec_pack_registers(values);
            let rest = seq![packed.len() as u8] + packed;
            lemma_pack_registers_roundtrip(values);
            lemma_two_u16_roundtrip(start, count, rest);
            assert(rest.skip(1).take(packed.len() as int) =~= packed);
            assert(body =~= spec_two_u16_to_be(start, count) + rest);
        },
    }
    let pdu = seq![function.spec_value()] + body;
    assert(pdu.skip(1) =~= body);
    crate::service::function::lemma_function_code_roundtrip(function);
}

} // verus!
