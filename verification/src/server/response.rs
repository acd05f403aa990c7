//! Replies of a server: what the handler answered, as a protocol data
//! unit.

use vstd::prelude::*;

use crate::client::message::{RequestView, ResponseView};
use crate::constants::exceptions;
use crate::constants::frame::MAX_PDU_SIZE;
use crate::error::details::ExceptionCode;
use crate::error::Error;
use crate::server::request::{lemma_two_u16_roundtrip, ServerRequest};
use crate::service::function::{
    exception_function, lemma_exception_function, spec_exception_function,
};
use crate::service::serialization::serializers::{
    put_u16_be, put_u8, spec_two_u16_to_be, write_packed_bits, write_packed_registers,
};
use crate::types::{coil_to_u16, spec_coil_to_u16, AddressRange, Indexed};
use crate::util::bits::{
    lemma_pack_bits_roundtrip, lemma_pack_registers_roundtrip, num_bytes_for_bits,
    spec_num_bytes_for_bits, spec_pack_bits, spec_pack_registers, spec_unpack_bits,
    spec_unpack_registers,
};
use crate::util::cursor::WriteCursor;

verus! {

/// What the handler answered to a request.
#[derive(Debug, Clone, PartialEq)]
pub enum Reply {
    /// The bits that a read asked for.
    Bits(Vec<bool>),
    /// The registers that a read asked for.
    Registers(Vec<u16>),
    /// The write was made.
    Written,
    /// The request was refused.
    Exception(ExceptionCode),
}

/// What a reply says.
pub enum ReplyView {
    Bits(Seq<bool>),
    Registers(Seq<u16>),
    Written,
    Exception(ExceptionCode),
}

impl View for Reply {
    type V = ReplyView;

    open spec fn view(&self) -> ReplyView {
        match self {
            Reply::Bits(values) => ReplyView::Bits(values@),
            Reply::Registers(values) => ReplyView::Registers(values@),
            Reply::Written => ReplyView::Written,
            Reply::Exception(code) => ReplyView::Exception(*code),
        }
    }
}

impl Reply {
    /// What the answer of a handler to a read of bits says: the bits, or
    /// the exception.
    pub open spec fn spec_from_bits(result: Result<Vec<bool>, ExceptionCode>) -> ReplyView {
        match result {
            Ok(values) => ReplyView::Bits(values@),
            Err(code) => ReplyView::Exception(code),
        }
    }

    /// What the answer of a handler to a read of registers says: the
    /// registers, or the exception.
    pub open spec fn spec_from_registers(result: Result<Vec<u16>, ExceptionCode>) -> ReplyView {
        match result {
            Ok(values) => ReplyView::Registers(values@),
            Err(code) => ReplyView::Exception(code),
        }
    }

    /// What the answer of a handler to a write says: that the write was
    /// made, or the exception.
    pub open spec fn spec_from_write(result: Result<(), ExceptionCode>) -> ReplyView {
        match result {
            Ok(()) => ReplyView::Written,
            Err(code) => ReplyView::Exception(code),
        }
    }

    /// Gathers the answer of a handler to a read of coils or of discrete
    /// inputs.
    pub fn from_bits(result: Result<Vec<bool>, ExceptionCode>) -> (reply: Reply)
        ensures
            reply@ == Self::spec_from_bits(result),
    {
        match result {
            Ok(values) => Reply::Bits(values),
            Err(code) => Reply::Exception(code),
        }
    }

    /// Gathers the answer of a handler to a read of holding or of input
    /// registers.
    pub fn from_registers(result: Result<Vec<u16>, ExceptionCode>) -> (reply: Reply)
        ensures
            reply@ == Self::spec_from_registers(result),
    {
        match result {
            Ok(values) => Reply::Registers(values),
            Err(code) => Reply::Exception(code),
        }
    }

    /// Gathers the answer of a handler to a write.
    pub fn from_write(result: Result<(), ExceptionCode>) -> (reply: Reply)
        ensures
            reply@ == Self::spec_from_write(result),
    {
        match result {
            Ok(()) => Reply::Written,
            Err(code) => Reply::Exception(code),
        }
    }
}

/// The protocol data unit that reports an exception to a request with
/// function byte `function`: that byte with the high bit set, and the code.
pub open spec fn spec_exception_pdu(function: u8, code: ExceptionCode) -> Seq<u8> {
    seq![spec_exception_function(function), code.spec_to_u8()]
}

/// Whether a reply is one that its request calls for: bits, one for each
/// address, to a read of bits; registers likewise; the mark of a write to
/// a write.
pub open spec fn spec_reply_fits(request: RequestView, reply: ReplyView) -> bool {
    match (request, reply) {
        (RequestView::ReadCoils(range), ReplyView::Bits(values)) => values.len() == range.count,
        (RequestView::ReadDiscreteInputs(range), ReplyView::Bits(values)) => values.len()
            == range.count,
        (RequestView::ReadHoldingRegisters(range), ReplyView::Registers(values)) => values.len()
            == range.count,
        (RequestView::ReadInputRegisters(range), ReplyView::Registers(values)) => values.len()
            == range.count,
        (RequestView::WriteSingleCoil(_), ReplyView::Written) => true,
        (RequestView::WriteSingleRegister(_), ReplyView::Written) => true,
        (RequestView::WriteMultipleCoils(_, _), ReplyView::Written) => true,
        (RequestView::WriteMultipleRegisters(_, _), ReplyView::Written) => true,
        _ => false,
    }
}

/// Whether a reply is of the kind that the handler gives to a request:
/// an exception to any; else bits to a read of bits, registers to a read
/// of registers, the mark of a write to a write.
pub open spec fn spec_reply_kind(request: RequestView, reply: ReplyView) -> bool {
    match (request, reply) {
        (_, ReplyView::Exception(_)) => true,
        (RequestView::ReadCoils(_), ReplyView::Bits(_)) => true,
        (RequestView::ReadDiscreteInputs(_), ReplyView::Bits(_)) => true,
        (RequestView::ReadHoldingRegisters(_), ReplyView::Registers(_)) => true,
        (RequestView::ReadInputRegisters(_), ReplyView::Registers(_)) => true,
        (RequestView::WriteSingleCoil(_), ReplyView::Written) => true,
        (RequestView::WriteSingleRegister(_), ReplyView::Written) => true,
        (RequestView::WriteMultipleCoils(_, _), ReplyView::Written) => true,
        (RequestView::WriteMultipleRegisters(_, _), ReplyView::Written) => true,
        _ => false,
    }
}

/// The protocol data unit that answers a request with a reply: an
/// exception for an exception; for a reply that fits the request, the
/// function byte and the values behind their byte count, or the echo of
/// the write; and the exception `IllegalDataValue` for a reply that does
/// not fit.
pub open spec fn spec_reply_pdu(request: RequestView, reply: ReplyView) -> Seq<u8> {
    let function = request.function().spec_value();
    if let ReplyView::Exception(code) = reply {
        spec_exception_pdu(function, code)
    } else if !spec_reply_fits(request, reply) {
        spec_exception_pdu(function, ExceptionCode::IllegalDataValue)
    } else {
        match (request, reply) {
            (_, ReplyView::Bits(values)) => seq![
                function,
                spec_num_bytes_for_bits(values.len() as int) as u8,
            ] + spec_pack_bits(values),
            (_, ReplyView::Registers(values)) => seq![function, (2 * values.len()) as u8]
                + spec_pack_registers(values),
            (RequestView::WriteSingleCoil(value), _) => seq![function] + spec_two_u16_to_be(
                value.index,
                spec_coil_to_u16(value.value),
            ),
            (RequestView::WriteSingleRegister(value), _) => seq![function] + spec_two_u16_to_be(
                value.index,
                value.value,
            ),
            (RequestView::WriteMultipleCoils(start, values), _) => seq![function]
                + spec_two_u16_to_be(start, values.len() as u16),
            (RequestView::WriteMultipleRegisters(start, values), _) => seq![function]
                + spec_two_u16_to_be(start, values.len() as u16),
            _ => spec_exception_pdu(function, ExceptionCode::IllegalDataValue),
        }
    }
}

/// What a client that made `request` is handed when the reply arrives.
pub open spec fn spec_client_outcome(request: RequestView, reply: ReplyView) -> Result<
    ResponseView,
    Error,
> {
    if let ReplyView::Exception(code) = reply {
        Err(Error::Exception(ExceptionCode::spec_from_u8(code.spec_to_u8())))
    } else if !spec_reply_fits(request, reply) {
        Err(Error::Exception(ExceptionCode::IllegalDataValue))
    } else {
        match (request, reply) {
            (RequestView::ReadCoils(range), ReplyView::Bits(values)) => Ok(
                ResponseView::ReadCoils(spec_index_values(range, values)),
            ),
            (RequestView::ReadDiscreteInputs(range), ReplyView::Bits(values)) => Ok(
                ResponseView::ReadDiscreteInputs(spec_index_values(range, values)),
            ),
            (RequestView::ReadHoldingRegisters(range), ReplyView::Registers(values)) => Ok(
                ResponseView::ReadHoldingRegisters(spec_index_values(range, values)),
            ),
            (RequestView::ReadInputRegisters(range), ReplyView::Registers(values)) => Ok(
                ResponseView::ReadInputRegisters(spec_index_values(range, values)),
            ),
            (RequestView::WriteSingleCoil(value), _) => Ok(ResponseView::WriteSingleCoil(value)),
            (RequestView::WriteSingleRegister(value), _) => Ok(
                ResponseView::WriteSingleRegister(value),
            ),
            (RequestView::WriteMultipleCoils(start, values), _) => Ok(
                ResponseView::WriteMultipleCoils(
                    AddressRange { start, count: values.len() as u16 },
                ),
            ),
            (RequestView::WriteMultipleRegisters(start, values), _) => Ok(
                ResponseView::WriteMultipleRegisters(
                    AddressRange { start, count: values.len() as u16 },
                ),
            ),
            _ => Err(Error::Exception(ExceptionCode::IllegalDataValue)),
        }
    }
}

/// The values of a range, each with its address.
pub open spec fn spec_index_values<T>(range: AddressRange, values: Seq<T>) -> Seq<Indexed<T>> {
    Seq::new(
        range.count as nat,
        |i: int| Indexed { index: (range.start + i) as u16, value: values[i] },
    )
}

/// Encodes the exception response to a request with function byte
/// `function`.
pub fn serialize_exception(function: u8, code: ExceptionCode) -> (pdu: Vec<u8>)
    ensures
        pdu@ == spec_exception_pdu(function, code),
{
    let mut pdu: Vec<u8> = Vec::with_capacity(2);
    pdu.push(exception_function(function));
    pdu.push(code.to_u8());
    assert(pdu@ =~= spec_exception_pdu(function, code));
    pdu
}

/// Encodes what the handler answered to a request as a protocol data
/// unit. A read answered with the wrong kind or number of values is
/// reported to the peer as the exception `IllegalDataValue`.
pub fn serialize_reply<'a>(request: &ServerRequest<'a>, reply: &Reply) -> (pdu: Vec<u8>)
    requires
        request.wf(),
    ensures
        pdu@ == spec_reply_pdu(request@, reply@),
        pdu@.len() <= MAX_PDU_SIZE,
{
    let function: u8 = request.function().get_value();
    let mut cursor = WriteCursor::new(MAX_PDU_SIZE);
    match (request, reply) {
        (_, Reply::Exception(code)) => {
            return serialize_exception(function, *code);
        },
        (ServerRequest::ReadCoils(range), Reply::Bits(values)) => {
            if values.len() != range.count as usize {
                return serialize_exception(function, ExceptionCode::IllegalDataValue);
            }
            put_u8(&mut cursor, function);
            put_u8(&mut cursor, num_bytes_for_bits(range.count) as u8);
            write_packed_bits(values.as_slice(), &mut cursor);
        },
        (ServerRequest::ReadDiscreteInputs(range), Reply::Bits(values)) => {
            if values.len() != range.count as usize {
                return serialize_exception(function, ExceptionCode::IllegalDataValue);
            }
            put_u8(&mut cursor, function);
            put_u8(&mut cursor, num_bytes_for_bits(range.count) as u8);
            write_packed_bits(values.as_slice(), &mut cursor);
        },
        (ServerRequest::ReadHoldingRegisters(range), Reply::Registers(values)) => {
            if values.len() != range.count as usize {
                return serialize_exception(function, ExceptionCode::IllegalDataValue);
            }
            put_u8(&mut cursor, function);
            put_u8(&mut cursor, (2 * range.count) as u8);
            write_packed_registers(values.as_slice(), &mut cursor);
        },
        (ServerRequest::ReadInputRegisters(range), Reply::Registers(values)) => {
            if values.len() != range.count as usize {
                return serialize_exception(function, ExceptionCode::IllegalDataValue);
            }
            put_u8(&mut cursor, function);
            put_u8(&mut cursor, (2 * range.count) as u8);
            write_packed_registers(values.as_slice(), &mut cursor);
        },
        (ServerRequest::WriteSingleCoil(value), Reply::Written) => {
            put_u8(&mut cursor, function);
            put_u16_be(&mut cursor, value.index);
            put_u16_be(&mut cursor, coil_to_u16(value.value));
        },
        (ServerRequest::WriteSingleRegister(value), Reply::Written) => {
            put_u8(&mut cursor, function);
            put_u16_be(&mut cursor, value.index);
            put_u16_be(&mut cursor, value.value);
        },
        (ServerRequest::WriteMultipleCoils(write), Reply::Written) => {
            put_u8(&mut cursor, function);
            put_u16_be(&mut cursor, write.range.start);
            put_u16_be(&mut cursor, write.range.count);
        },
        (ServerRequest::WriteMultipleRegisters(write), Reply::Written) => {
            put_u8(&mut cursor, function);
            put_u16_be(&mut cursor, write.range.start);
            put_u16_be(&mut cursor, write.range.count);
        },
        _ => {
            return serialize_exception(function, ExceptionCode::IllegalDataValue);
        },
    }
    let pdu = cursor.into_bytes();
    assert(pdu@ =~= spec_reply_pdu(request@, reply@));
    pdu
}

/// The wire value of an exception stands for that exception, unless the
/// exception is an unknown one that carries the wire value of a known one.
pub proof fn lemma_exception_code_roundtrip(code: ExceptionCode)
    ensures
        !(code is Unknown) ==> ExceptionCode::spec_from_u8(code.spec_to_u8()) == code,
        code matches ExceptionCode::Unknown(value) ==> (ExceptionCode::spec_from_u8(value)
            is Unknown ==> ExceptionCode::spec_from_u8(code.spec_to_u8()) == code),
{
}

/// A wire value stands for an exception whose wire value it is.
pub proof fn lemma_exception_value_roundtrip(value: u8)
    ensures
        ExceptionCode::spec_from_u8(value).spec_to_u8() == value,
{
}

/// Decoding the reply to a request that passes its check gives the client
/// what the handler answered: the values of a read, each with its address;
/// the echo of a write; the exception of a refusal; and the exception
/// `IllegalDataValue` where the handler answered with the wrong kind or
/// number of values.
pub proof fn lemma_response_roundtrip(request: RequestView, reply: ReplyView)
    requires
        request.check_validity().is_ok(),
    ensures
        request.parse_response(spec_reply_pdu(request, reply)) == spec_client_outcome(
            request,
            reply,
        ),
{
    let function = request.function().spec_value();
    let pdu = spec_reply_pdu(request, reply);
    lemma_exception_function(function);
    lemma_exception_value_roundtrip(exceptions::ILLEGAL_DATA_VALUE);
    let empty = Seq::<u8>::empty();
    if let ReplyView::Exception(code) = reply {
    } else if !spec_reply_fits(request, reply) {
    } else {
        match (request, reply) {
            (RequestView::ReadCoils(range), ReplyView::Bits(values)) => {
                let body = seq![spec_num_bytes_for_bits(values.len() as int) as u8]
                    + spec_pack_bits(values);
                assert(pdu.skip(1) =~= body);
                lemma_bits_response(range, values, body);
            },
            (RequestView::ReadDiscreteInputs(range), ReplyView::Bits(values)) => {
                let body = seq![spec_num_bytes_for_bits(values.len() as int) as u8]
                    + spec_pack_bits(values);
                assert(pdu.skip(1) =~= body);
                lemma_bits_response(range, values, body);
            },
            (RequestView::ReadHoldingRegisters(range), ReplyView::Registers(values)) => {
                let body = seq![(2 * values.len()) as u8] + spec_pack_registers(values);
                assert(pdu.skip(1) =~= body);
                lemma_registers_response(range, values, body);
            },
            (RequestView::ReadInputRegisters(range), ReplyView::Registers(values)) => {
                let body = seq![(2 * values.len()) as u8] + spec_pack_registers(values);
                assert(pdu.skip(1) =~= body);
                lemma_registers_response(range, values, body);
            },
            (RequestView::WriteSingleCoil(value), _) => {
                lemma_two_u16_roundtrip(value.index, spec_coil_to_u16(value.value), empty);
                assert(pdu.skip(1) =~= spec_two_u16_to_be(
                    value.index,
                    spec_coil_to_u16(value.value),
                ) + empty);
            },
            (RequestView::WriteSingleRegister(value), _) => {
                lemma_two_u16_roundtrip(value.index, value.value, empty);
                assert(pdu.skip(1) =~= spec_two_u16_to_be(value.index, value.value) + empty);
            },
            (RequestView::WriteMultipleCoils(start, values), _) => {
                lemma_two_u16_roundtrip(start, values.len() as u16, empty);
                assert(pdu.skip(1) =~= spec_two_u16_to_be(start, values.len() as u16) + empty);
            },
            (RequestView::WriteMultipleRegisters(start, values), _) => {
                lemma_two_u16_roundtrip(start, values.len() as u16, empty);
                assert(pdu.skip(1) =~= spec_two_u16_to_be(start, values.len() as u16) + empty);
            },
            _ => {},
        }
    }
}

/// The body of the response to a read of bits decodes to the bits that
/// were packed into it, each with its address.
pub proof fn lemma_bits_response(range: AddressRange, values: Seq<bool>, body: Seq<u8>)
    requires
        range.valid(),
        range.count <= 2000,
        values.len() == range.count,
        body == seq![spec_num_bytes_for_bits(values.len() as int) as u8] + spec_pack_bits(values),
    ensures
        <Vec<Indexed<bool>> as crate::service::traits::ParseResponse<
            AddressRange,
        >>::spec_parse_response(body, &range) == Ok::<Seq<Indexed<bool>>, Error>(
            spec_index_values(range, values),
        ),
{
    let packed = spec_pack_bits(values);
    lemma_pack_bits_roundtrip(values);
    assert(body.skip(1) =~= packed);
    let decoded = crate::service::serialization::client_response_parsers::spec_indexed_bits(
        packed,
        range,
    );
    let unpacked = spec_unpack_bits(packed, values.len());
    assert forall|i: int| 0 <= i < range.count implies decoded[i] == spec_index_values(
        range,
        values,
    )[i] by {
        assert(unpacked[i] == values[i]);
    }
    assert(decoded =~= spec_index_values(range, values));
}

/// The body of the response to a read of registers decodes to the
/// registers that were written into it, each with its address.
pub proof fn lemma_registers_response(range: AddressRange, values: Seq<u16>, body: Seq<u8>)
    requires
        range.valid(),
        range.count <= 125,
        values.len() == range.count,
        body == seq![(2 * values.len()) as u8] + spec_pack_registers(values),
    ensures
        <Vec<Indexed<u16>> as crate::service::traits::ParseResponse<
            AddressRange,
        >>::spec_parse_response(body, &range) == Ok::<Seq<Indexed<u16>>, Error>(
            spec_index_values(range, values),
        ),
{
    let packed = spec_pack_registers(values);
    lemma_pack_registers_roundtrip(values);
    assert(body.skip(1) =~= packed);
    let decoded = crate::service::serialization::client_response_parsers::spec_indexed_registers(
        packed,
        range,
    );
    let unpacked = spec_unpack_registers(packed);
    assert forall|i: int| 0 <= i < range.count implies decoded[i] == spec_index_values(
        range,
        values,
    )[i] by {
        assert(unpacked[i] == values[i]);
    }
    assert(decoded =~= spec_index_values(range, values));
}

} // verus!
