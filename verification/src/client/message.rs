//! Requests as a client makes them and responses as it receives them.

use vstd::prelude::*;

use crate::constants::frame::MAX_PDU_SIZE;
use crate::error::details::{ADUParseError, ExceptionCode, InternalError, InvalidRequest};
use crate::error::Error;
use crate::service::function::{
    exception_function, spec_exception_function, FunctionCode,
};
use crate::service::serialization::client_response_parsers::spec_parse_write_multiple_echo;
use crate::service::serialization::serializers::{
    put_u8, spec_serialize_write_coils, spec_serialize_write_registers, spec_two_u16_to_be,
};
use crate::service::traits::{ParseResponse, Serialize};
use crate::service::validation::range::{
    check_validity_for_read_bits, check_validity_for_read_registers,
    check_validity_for_write_multiple_coils, check_validity_for_write_multiple_registers,
    spec_check_validity,
};
use crate::types::{spec_coil_to_u16, spec_values_range, AddressRange, Indexed, WriteMultiple};
use crate::util::cursor::{ReadCursor, WriteCursor};

verus! {

/// A request that a client makes.
#[derive(Debug, Clone)]
pub enum Request {
    ReadCoils(AddressRange),
    ReadDiscreteInputs(AddressRange),
    ReadHoldingRegisters(AddressRange),
    ReadInputRegisters(AddressRange),
    WriteSingleCoil(Indexed<bool>),
    WriteSingleRegister(Indexed<u16>),
    WriteMultipleCoils(WriteMultiple<bool>),
    WriteMultipleRegisters(WriteMultiple<u16>),
}

/// What a request says, whichever side holds it: a write of several
/// values is a start and the values.
pub enum RequestView {
    ReadCoils(AddressRange),
    ReadDiscreteInputs(AddressRange),
    ReadHoldingRegisters(AddressRange),
    ReadInputRegisters(AddressRange),
    WriteSingleCoil(Indexed<bool>),
    WriteSingleRegister(Indexed<u16>),
    WriteMultipleCoils(u16, Seq<bool>),
    WriteMultipleRegisters(u16, Seq<u16>),
}

/// The response to a request, as the client hands it to the caller.
#[derive(Debug, Clone, PartialEq)]
pub enum Response {
    ReadCoils(Vec<Indexed<bool>>),
    ReadDiscreteInputs(Vec<Indexed<bool>>),
    ReadHoldingRegisters(Vec<Indexed<u16>>),
    ReadInputRegisters(Vec<Indexed<u16>>),
    WriteSingleCoil(Indexed<bool>),
    WriteSingleRegister(Indexed<u16>),
    WriteMultipleCoils(AddressRange),
    WriteMultipleRegisters(AddressRange),
}

/// What a response says.
pub enum ResponseView {
    ReadCoils(Seq<Indexed<bool>>),
    ReadDiscreteInputs(Seq<Indexed<bool>>),
    ReadHoldingRegisters(Seq<Indexed<u16>>),
    ReadInputRegisters(Seq<Indexed<u16>>),
    WriteSingleCoil(Indexed<bool>),
    WriteSingleRegister(Indexed<u16>),
    WriteMultipleCoils(AddressRange),
    WriteMultipleRegisters(AddressRange),
}

impl View for Request {
    type V = RequestView;

    open spec fn view(&self) -> RequestView {
        match self {
            Request::ReadCoils(range) => RequestView::ReadCoils(*range),
            Request::ReadDiscreteInputs(range) => RequestView::ReadDiscreteInputs(*range),
            Request::ReadHoldingRegisters(range) => RequestView::ReadHoldingRegisters(*range),
            Request::ReadInputRegisters(range) => RequestView::ReadInputRegisters(*range),
            Request::WriteSingleCoil(value) => RequestView::WriteSingleCoil(*value),
            Request::WriteSingleRegister(value) => RequestView::WriteSingleRegister(*value),
            Request::WriteMultipleCoils(write) => RequestView::WriteMultipleCoils(
                write.start,
                write.values@,
            ),
            Request::WriteMultipleRegisters(write) => RequestView::WriteMultipleRegisters(
                write.start,
                write.values@,
            ),
        }
    }
}

impl View for Response {
    type V = ResponseView;

    open spec fn view(&self) -> ResponseView {
        match self {
            Response::ReadCoils(values) => ResponseView::ReadCoils(values@),
            Response::ReadDiscreteInputs(values) => ResponseView::ReadDiscreteInputs(values@),
            Response::ReadHoldingRegisters(values) => ResponseView::ReadHoldingRegisters(values@),
            Response::ReadInputRegisters(values) => ResponseView::ReadInputRegisters(values@),
            Response::WriteSingleCoil(value) => ResponseView::WriteSingleCoil(*value),
            Response::WriteSingleRegister(value) => ResponseView::WriteSingleRegister(*value),
            Response::WriteMultipleCoils(range) => ResponseView::WriteMultipleCoils(*range),
            Response::WriteMultipleRegisters(range) => ResponseView::WriteMultipleRegisters(
                *range,
            ),
        }
    }
}

impl RequestView {
    /// The function that the request calls.
    pub open spec fn function(self) -> FunctionCode {
        match self {
            RequestView::ReadCoils(_) => FunctionCode::ReadCoils,
            RequestView::ReadDiscreteInputs(_) => FunctionCode::ReadDiscreteInputs,
            RequestView::ReadHoldingRegisters(_) => FunctionCode::ReadHoldingRegisters,
            RequestView::ReadInputRegisters(_) => FunctionCode::ReadInputRegisters,
            RequestView::WriteSingleCoil(_) => FunctionCode::WriteSingleCoil,
            RequestView::WriteSingleRegister(_) => FunctionCode::WriteSingleRegister,
            RequestView::WriteMultipleCoils(_, _) => FunctionCode::WriteMultipleCoils,
            RequestView::WriteMultipleRegisters(_, _) => FunctionCode::WriteMultipleRegisters,
        }
    }

    /// The range that a read asks for.
    pub open spec fn read_range(self) -> Option<AddressRange> {
        match self {
            RequestView::ReadCoils(range) => Some(range),
            RequestView::ReadDiscreteInputs(range) => Some(range),
            RequestView::ReadHoldingRegisters(range) => Some(range),
            RequestView::ReadInputRegisters(range) => Some(range),
            _ => None,
        }
    }

    /// Whether the request may be sent: a read asks for a range, and for no
    /// more than its kind allows; a write of several values covers a range
    /// and carries no more than its kind allows.
    pub open spec fn check_validity(self) -> Result<(), InvalidRequest> {
        match self {
            RequestView::ReadCoils(range) => spec_check_read(range, 2000),
            RequestView::ReadDiscreteInputs(range) => spec_check_read(range, 2000),
            RequestView::ReadHoldingRegisters(range) => spec_check_read(range, 125),
            RequestView::ReadInputRegisters(range) => spec_check_read(range, 125),
            RequestView::WriteSingleCoil(_) => Ok(()),
            RequestView::WriteSingleRegister(_) => Ok(()),
            RequestView::WriteMultipleCoils(start, values) => spec_check_write(
                start,
                values.len(),
                1968,
            ),
            RequestView::WriteMultipleRegisters(start, values) => spec_check_write(
                start,
                values.len(),
                123,
            ),
        }
    }

    /// The body of the request on the wire, or why it has none.
    pub open spec fn body(self) -> Result<Seq<u8>, Error> {
        match self {
            RequestView::ReadCoils(range) => Ok(spec_two_u16_to_be(range.start, range.count)),
            RequestView::ReadDiscreteInputs(range) => Ok(
                spec_two_u16_to_be(range.start, range.count),
            ),
            RequestView::ReadHoldingRegisters(range) => Ok(
                spec_two_u16_to_be(range.start, range.count),
            ),
            RequestView::ReadInputRegisters(range) => Ok(
                spec_two_u16_to_be(range.start, range.count),
            ),
            RequestView::WriteSingleCoil(value) => Ok(
                spec_two_u16_to_be(value.index, spec_coil_to_u16(value.value)),
            ),
            RequestView::WriteSingleRegister(value) => Ok(
                spec_two_u16_to_be(value.index, value.value),
            ),
            RequestView::WriteMultipleCoils(start, values) => spec_serialize_write_coils(
                start,
                values,
            ),
            RequestView::WriteMultipleRegisters(start, values) => spec_serialize_write_registers(
                start,
                values,
            ),
        }
    }

    /// The protocol data unit of the request: the function byte and the
    /// body. A request that fails its check has none, nor has one whose
    /// body would not fit.
    pub open spec fn pdu(self) -> Result<Seq<u8>, Error> {
        match self.check_validity() {
            Err(err) => Err(Error::BadRequest(err)),
            Ok(()) => spec_pdu(self.function().spec_value(), self.body()),
        }
    }

    /// What the bytes of a protocol data unit decode to as the response to
    /// this request.
    pub open spec fn parse_response(self, pdu: Seq<u8>) -> Result<ResponseView, Error> {
        match self.check_validity() {
            Err(err) => Err(Error::BadRequest(err)),
            Ok(()) => match spec_response_function(pdu, self.function().spec_value()) {
                Err(err) => Err(err),
                Ok(()) => self.parse_response_body(pdu.skip(1)),
            },
        }
    }

    /// What the bytes behind the function byte decode to as the response
    /// to this request.
    pub open spec fn parse_response_body(self, body: Seq<u8>) -> Result<ResponseView, Error> {
        match self {
            RequestView::ReadCoils(range) => match Vec::<Indexed<bool>>::spec_parse_response(
                body,
                &range,
            ) {
                Ok(values) => Ok(ResponseView::ReadCoils(values)),
                Err(err) => Err(err),
            },
            RequestView::ReadDiscreteInputs(range) => match Vec::<
                Indexed<bool>,
            >::spec_parse_response(body, &range) {
                Ok(values) => Ok(ResponseView::ReadDiscreteInputs(values)),
                Err(err) => Err(err),
            },
            RequestView::ReadHoldingRegisters(range) => match Vec::<
                Indexed<u16>,
            >::spec_parse_response(body, &range) {
                Ok(values) => Ok(ResponseView::ReadHoldingRegisters(values)),
                Err(err) => Err(err),
            },
            RequestView::ReadInputRegisters(range) => match Vec::<
                Indexed<u16>,
            >::spec_parse_response(body, &range) {
                Ok(values) => Ok(ResponseView::ReadInputRegisters(values)),
                Err(err) => Err(err),
            },
            RequestView::WriteSingleCoil(value) => match Indexed::<bool>::spec_parse_response(
                body,
                &value,
            ) {
                Ok(echo) => Ok(ResponseView::WriteSingleCoil(echo)),
                Err(err) => Err(err),
            },
            RequestView::WriteSingleRegister(value) => match Indexed::<u16>::spec_parse_response(
                body,
                &value,
            ) {
                Ok(echo) => Ok(ResponseView::WriteSingleRegister(echo)),
                Err(err) => Err(err),
            },
            RequestView::WriteMultipleCoils(start, values) => match spec_parse_write_multiple_echo(
                body,
                start,
                values.len(),
            ) {
                Ok(range) => Ok(ResponseView::WriteMultipleCoils(range)),
                Err(err) => Err(err),
            },
            RequestView::WriteMultipleRegisters(
                start,
                values,
            ) => match spec_parse_write_multiple_echo(body, start, values.len()) {
                Ok(range) => Ok(ResponseView::WriteMultipleRegisters(range)),
                Err(err) => Err(err),
            },
        }
    }
}

/// The check on a read: its range must be one, of at most `max` addresses.
pub open spec fn spec_check_read(range: AddressRange, max: u16) -> Result<(), InvalidRequest> {
    match AddressRange::spec_try_from(range.start, range.count) {
        Err(err) => Err(InvalidRequest::BadRange(err)),
        Ok(_) => spec_check_validity(range, max),
    }
}

/// The check on a write of `count` values from `start`: they must cover a
/// range, of at most `max` addresses.
pub open spec fn spec_check_write(start: u16, count: nat, max: u16) -> Result<(), InvalidRequest> {
    match spec_values_range(start, count) {
        Err(err) => Err(err),
        Ok(range) => spec_check_validity(range, max),
    }
}

/// A function byte before a body, if the body is one and both fit in a
/// protocol data unit.
pub open spec fn spec_pdu(function: u8, body: Result<Seq<u8>, Error>) -> Result<Seq<u8>, Error> {
    match body {
        Err(err) => Err(err),
        Ok(bytes) => if bytes.len() + 1 <= MAX_PDU_SIZE {
            Ok(seq![function] + bytes)
        } else {
            Err(
                Error::Internal(
                    InternalError::InsufficientBytesForWrite(
                        bytes.len() as usize,
                        (MAX_PDU_SIZE - 1) as usize,
                    ),
                ),
            )
        },
    }
}

/// What the first bytes of a response say of a request with function byte
/// `function`: the same byte goes before a response; that byte with the
/// high bit set goes before an exception code, which comes back as
/// `Exception`; any other byte is `UnknownResponseFunction`.
pub open spec fn spec_response_function(pdu: Seq<u8>, function: u8) -> Result<(), Error> {
    if pdu.len() < 1 {
        Err(Error::BadResponse(ADUParseError::InsufficientBytes))
    } else if pdu[0] == function {
        Ok(())
    } else if pdu[0] == spec_exception_function(function) {
        if pdu.len() < 2 {
            Err(Error::BadResponse(ADUParseError::InsufficientBytes))
        } else {
            Err(Error::Exception(ExceptionCode::spec_from_u8(pdu[1])))
        }
    } else {
        Err(Error::BadResponse(ADUParseError::UnknownResponseFunction(pdu[0])))
    }
}

/// Reads the function byte of a response to a request with function byte
/// `function`, and the exception code if it announces one.
pub fn parse_response_function(cursor: &mut ReadCursor, function: u8) -> (r: Result<(), Error>)
    ensures
        r == spec_response_function(old(cursor)@, function),
        r.is_ok() ==> final(cursor)@ == old(cursor)@.skip(1),
{
    let actual: u8 = match cursor.read_u8() {
        Ok(value) => value,
        Err(err) => {
            return Err(Error::BadResponse(err));
        },
    };
    if actual == function {
        return Ok(());
    }
    if actual == exception_function(function) {
        let code: u8 = match cursor.read_u8() {
            Ok(value) => value,
            Err(err) => {
                return Err(Error::BadResponse(err));
            },
        };
        return Err(Error::Exception(ExceptionCode::from_u8(code)));
    }
    Err(Error::BadResponse(ADUParseError::UnknownResponseFunction(actual)))
}

/// Checks the range of a read against the limit of its kind.
fn check_read(range: AddressRange, bits: bool) -> (r: Result<(), InvalidRequest>)
    ensures
        r == spec_check_read(
            range,
            if bits {
                2000u16
            } else {
                125u16
            },
        ),
        r.is_ok() ==> range.valid(),
{
    match AddressRange::try_from(range.start, range.count) {
        Err(err) => Err(InvalidRequest::BadRange(err)),
        Ok(_) => if bits {
            check_validity_for_read_bits(range)
        } else {
            check_validity_for_read_registers(range)
        },
    }
}

impl Request {
    /// The function that the request calls.
    pub fn function(&self) -> (function: FunctionCode)
        ensures
            function == self@.function(),
    {
        match self {
            Request::ReadCoils(_) => FunctionCode::ReadCoils,
            Request::ReadDiscreteInputs(_) => FunctionCode::ReadDiscreteInputs,
            Request::ReadHoldingRegisters(_) => FunctionCode::ReadHoldingRegisters,
            Request::ReadInputRegisters(_) => FunctionCode::ReadInputRegisters,
            Request::WriteSingleCoil(_) => FunctionCode::WriteSingleCoil,
            Request::WriteSingleRegister(_) => FunctionCode::WriteSingleRegister,
            Request::WriteMultipleCoils(_) => FunctionCode::WriteMultipleCoils,
            Request::WriteMultipleRegisters(_) => FunctionCode::WriteMultipleRegisters,
        }
    }

    /// Decides, before any byte is sent, whether the request may be sent.
    /// A count beyond what the kind of request allows gives
    /// `CountTooBigForType` with the count and the limit.
    pub fn check_validity(&self) -> (r: Result<(), InvalidRequest>)
        ensures
            r == self@.check_validity(),
    {
        match self {
            Request::ReadCoils(range) => check_read(*range, true),
            Request::ReadDiscreteInputs(range) => check_read(*range, true),
            Request::ReadHoldingRegisters(range) => check_read(*range, false),
            Request::ReadInputRegisters(range) => check_read(*range, false),
            Request::WriteSingleCoil(_) => Ok(()),
            Request::WriteSingleRegister(_) => Ok(()),
            Request::WriteMultipleCoils(write) => match write.to_address_range() {
                Err(err) => Err(err),
                Ok(range) => check_validity_for_write_multiple_coils(range),
            },
            Request::WriteMultipleRegisters(write) => match write.to_address_range() {
                Err(err) => Err(err),
                Ok(range) => check_validity_for_write_multiple_registers(range),
            },
        }
    }

    /// Encodes the body of the request into the window, or leaves the
    /// window as it was.
    pub fn serialize_body(&self, cursor: &mut WriteCursor) -> (r: Result<(), Error>)
        ensures
            final(cursor).spec_capacity() == old(cursor).spec_capacity(),
            crate::service::traits::spec_written(
                self@.body(),
                old(cursor)@,
                old(cursor).spec_remaining(),
                r,
                final(cursor)@,
            ),
    {
        match self {
            Request::ReadCoils(range) => range.serialize(cursor),
            Request::ReadDiscreteInputs(range) => range.serialize(cursor),
            Request::ReadHoldingRegisters(range) => range.serialize(cursor),
            Request::ReadInputRegisters(range) => range.serialize(cursor),
            Request::WriteSingleCoil(value) => value.serialize(cursor),
            Request::WriteSingleRegister(value) => value.serialize(cursor),
            Request::WriteMultipleCoils(write) => write.serialize(cursor),
            Request::WriteMultipleRegisters(write) => write.serialize(cursor),
        }
    }

    /// Checks the request and encodes it as a protocol data unit: the
    /// function byte and the body. A request that fails its check gives
    /// `BadRequest`, and no byte.
    pub fn to_pdu(&self) -> (r: Result<Vec<u8>, Error>)
        ensures
            match r {
                Ok(bytes) => self@.pdu() == Ok::<Seq<u8>, Error>(bytes@),
                Err(err) => self@.pdu() == Err::<Seq<u8>, Error>(err),
            },
    {
        match self.check_validity() {
            Ok(()) => {},
            Err(err) => {
                return Err(Error::BadRequest(err));
            },
        }
        let function: u8 = self.function().get_value();
        let mut cursor = WriteCursor::new(MAX_PDU_SIZE);
        put_u8(&mut cursor, function);
        match self.serialize_body(&mut cursor) {
            Ok(()) => {},
            Err(err) => {
                return Err(err);
            },
        }
        let bytes = cursor.into_bytes();
        assert(bytes@ =~= seq![function] + self@.body().unwrap());
        Ok(bytes)
    }

    /// Decodes a protocol data unit as the response to this request. An
    /// exception response comes back as `Exception` with its code.
    pub fn parse_response(&self, pdu: &[u8]) -> (r: Result<Response, Error>)
        ensures
            match r {
                Ok(response) => self@.parse_response(pdu@) == Ok::<ResponseView, Error>(response@),
                Err(err) => self@.parse_response(pdu@) == Err::<ResponseView, Error>(err),
            },
    {
        match self.check_validity() {
            Ok(()) => {},
            Err(err) => {
                return Err(Error::BadRequest(err));
            },
        }
        let mut cursor = ReadCursor::new(pdu);
        match parse_response_function(&mut cursor, self.function().get_value()) {
            Ok(()) => {},
            Err(err) => {
                return Err(err);
            },
        }
        match self {
            Request::ReadCoils(range) => {
                match Vec::<Indexed<bool>>::parse_response(&mut cursor, range) {
                    Ok(values) => Ok(Response::ReadCoils(values)),
                    Err(err) => Err(err),
                }
            },
            Request::ReadDiscreteInputs(range) => {
                match Vec::<Indexed<bool>>::parse_response(&mut cursor, range) {
                    Ok(values) => Ok(Response::ReadDiscreteInputs(values)),
                    Err(err) => Err(err),
                }
            },
            Request::ReadHoldingRegisters(range) => {
                match Vec::<Indexed<u16>>::parse_response(&mut cursor, range) {
                    Ok(values) => Ok(Response::ReadHoldingRegisters(values)),
                    Err(err) => Err(err),
                }
            },
            Request::ReadInputRegisters(range) => {
                match Vec::<Indexed<u16>>::parse_response(&mut cursor, range) {
                    Ok(values) => Ok(Response::ReadInputRegisters(values)),
                    Err(err) => Err(err),
                }
            },
            Request::WriteSingleCoil(value) => {
                match Indexed::<bool>::parse_response(&mut cursor, value) {
                    Ok(echo) => Ok(Response::WriteSingleCoil(echo)),
                    Err(err) => Err(err),
                }
            },
            Request::WriteSingleRegister(value) => {
                match Indexed::<u16>::parse_response(&mut cursor, value) {
                    Ok(echo) => Ok(Response::WriteSingleRegister(echo)),
                    Err(err) => Err(err),
                }
            },
            Request::WriteMultipleCoils(write) => {
                match AddressRange::parse_response(&mut cursor, write) {
                    Ok(range) => Ok(Response::WriteMultipleCoils(range)),
                    Err(err) => Err(err),
                }
            },
            Request::WriteMultipleRegisters(write) => {
                match AddressRange::parse_response(&mut cursor, write) {
                    Ok(range) => Ok(Response::WriteMultipleRegisters(range)),
                    Err(err) => Err(err),
                }
            },
        }
    }
}

/// For every function byte from 1 to 127, a response that starts with
/// that byte with the high bit set is an exception response, and decodes
/// to the exception whose code follows.
pub proof fn lemma_exception_response_recognized(function: u8, code: u8, rest: Seq<u8>)
    requires
        1 <= function <= 127,
    ensures
        spec_response_function(seq![spec_exception_function(function), code] + rest, function)
            == Err::<(), Error>(Error::Exception(ExceptionCode::spec_from_u8(code))),
{
    crate::service::function::lemma_exception_function(function);
}

/// A request that passes its check decodes the exception response to its
/// function as the exception whose code follows the function byte.
pub proof fn lemma_request_exception_recognized(request: RequestView, code: u8, rest: Seq<u8>)
    requires
        request.check_validity().is_ok(),
    ensures
        request.parse_response(
            seq![spec_exception_function(request.function().spec_value()), code] + rest,
        ) == Err::<ResponseView, Error>(Error::Exception(ExceptionCode::spec_from_u8(code))),
{
    lemma_exception_response_recognized(request.function().spec_value(), code, rest);
}

impl RequestView {
    /// The byte count that the response to a read must declare: one byte
    /// for every eight bits or part of eight, two for every register.
    pub open spec fn expected_byte_count(self) -> Option<int> {
        match self {
            RequestView::ReadCoils(range) => Some(
                crate::util::bits::spec_num_bytes_for_bits(range.count as int),
            ),
            RequestView::ReadDiscreteInputs(range) => Some(
                crate::util::bits::spec_num_bytes_for_bits(range.count as int),
            ),
            RequestView::ReadHoldingRegisters(range) => Some(2 * range.count),
            RequestView::ReadInputRegisters(range) => Some(2 * range.count),
            _ => None,
        }
    }
}

/// The response to a read whose declared byte count is not the one that
/// the count of the request calls for fails to decode, with
/// `RequestByteCountMismatch` of the count called for and the count
/// declared.
pub proof fn lemma_byte_count_mismatch(request: RequestView, pdu: Seq<u8>)
    requires
        request.check_validity().is_ok(),
        request.expected_byte_count().is_some(),
        pdu.len() >= 2,
        pdu[0] == request.function().spec_value(),
        pdu[1] != request.expected_byte_count().unwrap(),
    ensures
        request.parse_response(pdu) == Err::<ResponseView, Error>(
            Error::BadResponse(
                ADUParseError::RequestByteCountMismatch(
                    request.expected_byte_count().unwrap() as usize,
                    pdu[1] as usize,
                ),
            ),
        ),
{
    assert(pdu.skip(1)[0] == pdu[1]);
}

} // verus!
