//! The dispatcher of a server: from the bytes of a request to the bytes
//! of the reply.

use vstd::prelude::*;

use crate::constants::frame::MAX_PDU_SIZE;
use crate::error::details::{ADUParseError, ExceptionCode};
use crate::error::Error;
use crate::client::message::RequestView;
use crate::server::handler::ServerHandler;
use crate::server::request::{spec_parse_request, ServerRequest};
use crate::server::response::{
    serialize_exception, serialize_reply, spec_exception_pdu, spec_reply_kind, spec_reply_pdu,
    Reply, ReplyView,
};
use crate::serial::frame::{
    format_rtu, parse_rtu, spec_format_rtu, spec_parse_rtu, FrameKind, RtuStep, RtuStepView,
};
use crate::common::frame::FrameHeader;
use crate::tcp::frame::{format_mbap, parse_mbap, spec_format_mbap, spec_parse_mbap};
use crate::types::{AddressRange, Indexed, UnitId};

verus! {

/// The reply to a protocol data unit that decodes to no request: none to
/// an empty one; the exception `IllegalFunction` to a function byte that
/// stands for no function; the exception `IllegalDataValue` to a body
/// that is malformed or names more points than its kind allows.
pub open spec fn spec_rejection(pdu: Seq<u8>, err: Error) -> Option<Seq<u8>> {
    if pdu.len() < 1 {
        None
    } else if err == Error::Exception(ExceptionCode::IllegalFunction) {
        Some(spec_exception_pdu(pdu[0], ExceptionCode::IllegalFunction))
    } else {
        Some(spec_exception_pdu(pdu[0], ExceptionCode::IllegalDataValue))
    }
}

/// Whether `reply` is what the handler may answer to a read of the coils of `range` for
/// `unit`.
pub open spec fn spec_answers_read_coils<H: ServerHandler>(
    handler: H,
    range: AddressRange,
    unit: UnitId,
    reply: ReplyView,
) -> bool {
    exists|r: Result<Vec<bool>, ExceptionCode>|
        #[trigger] handler.answers_read_coils(range, unit, r) && reply == Reply::spec_from_bits(r)
}

/// Whether `reply` is what the handler may answer to a read of the discrete inputs of `range` for
/// `unit`.
pub open spec fn spec_answers_read_discrete_inputs<H: ServerHandler>(
    handler: H,
    range: AddressRange,
    unit: UnitId,
    reply: ReplyView,
) -> bool {
    exists|r: Result<Vec<bool>, ExceptionCode>|
        #[trigger] handler.answers_read_discrete_inputs(range, unit, r) && reply == Reply::spec_from_bits(r)
}

/// Whether `reply` is what the handler may answer to a read of the holding registers of `range` for
/// `unit`.
pub open spec fn spec_answers_read_holding_registers<H: ServerHandler>(
    handler: H,
    range: AddressRange,
    unit: UnitId,
    reply: ReplyView,
) -> bool {
    exists|r: Result<Vec<u16>, ExceptionCode>|
        #[trigger] handler.answers_read_holding_registers(range, unit, r) && reply == Reply::spec_from_registers(r)
}

/// Whether `reply` is what the handler may answer to a read of the input registers of `range` for
/// `unit`.
pub open spec fn spec_answers_read_input_registers<H: ServerHandler>(
    handler: H,
    range: AddressRange,
    unit: UnitId,
    reply: ReplyView,
) -> bool {
    exists|r: Result<Vec<u16>, ExceptionCode>|
        #[trigger] handler.answers_read_input_registers(range, unit, r) && reply == Reply::spec_from_registers(r)
}

/// Whether `reply` is what the handler may answer to a write of the coil `value` for
/// `unit`.
pub open spec fn spec_answers_write_single_coil<H: ServerHandler>(
    handler: H,
    value: Indexed<bool>,
    unit: UnitId,
    reply: ReplyView,
) -> bool {
    exists|r: Result<(), ExceptionCode>|
        #[trigger] handler.answers_write_single_coil(value, unit, r) && reply == Reply::spec_from_write(r)
}

/// Whether `reply` is what the handler may answer to a write of the register `value` for
/// `unit`.
pub open spec fn spec_answers_write_single_register<H: ServerHandler>(
    handler: H,
    value: Indexed<u16>,
    unit: UnitId,
    reply: ReplyView,
) -> bool {
    exists|r: Result<(), ExceptionCode>|
        #[trigger] handler.answers_write_single_register(value, unit, r) && reply == Reply::spec_from_write(r)
}

/// Whether `reply` is what the handler may answer to a write of the coils `values` to `range` for
/// `unit`.
pub open spec fn spec_answers_write_multiple_coils<H: ServerHandler>(
    handler: H,
    range: AddressRange,
    values: Seq<bool>,
    unit: UnitId,
    reply: ReplyView,
) -> bool {
    exists|r: Result<(), ExceptionCode>|
        #[trigger] handler.answers_write_multiple_coils(range, values, unit, r) && reply == Reply::spec_from_write(r)
}

/// Whether `reply` is what the handler may answer to a write of the registers `values` to `range` for
/// `unit`.
pub open spec fn spec_answers_write_multiple_registers<H: ServerHandler>(
    handler: H,
    range: AddressRange,
    values: Seq<u16>,
    unit: UnitId,
    reply: ReplyView,
) -> bool {
    exists|r: Result<(), ExceptionCode>|
        #[trigger] handler.answers_write_multiple_registers(range, values, unit, r) && reply == Reply::spec_from_write(r)
}

/// Whether `reply` is what a handler may answer to a request for `unit`:
/// what the method that serves the kind of the request may answer to its
/// range or value, gathered as `Reply::spec_from_bits`,
/// `Reply::spec_from_registers` and `Reply::spec_from_write` say.
pub open spec fn spec_answers<H: ServerHandler>(
    handler: H,
    unit: UnitId,
    request: RequestView,
    reply: ReplyView,
) -> bool {
    match request {
        RequestView::ReadCoils(range) => spec_answers_read_coils(handler, range, unit, reply),
        RequestView::ReadDiscreteInputs(range) => spec_answers_read_discrete_inputs(
            handler,
            range,
            unit,
            reply,
        ),
        RequestView::ReadHoldingRegisters(range) => spec_answers_read_holding_registers(
            handler,
            range,
            unit,
            reply,
        ),
        RequestView::ReadInputRegisters(range) => spec_answers_read_input_registers(
            handler,
            range,
            unit,
            reply,
        ),
        RequestView::WriteSingleCoil(value) => spec_answers_write_single_coil(
            handler,
            value,
            unit,
            reply,
        ),
        RequestView::WriteSingleRegister(value) => spec_answers_write_single_register(
            handler,
            value,
            unit,
            reply,
        ),
        RequestView::WriteMultipleCoils(start, values) => spec_answers_write_multiple_coils(
            handler,
            AddressRange { start, count: values.len() as u16 },
            values,
            unit,
            reply,
        ),
        RequestView::WriteMultipleRegisters(start, values) => spec_answers_write_multiple_registers(
            handler,
            AddressRange { start, count: values.len() as u16 },
            values,
            unit,
            reply,
        ),
    }
}

/// An answer of a handler is an exception, or of the kind that goes with
/// the request.
pub proof fn lemma_answers_kind<H: ServerHandler>(
    handler: H,
    unit: UnitId,
    request: RequestView,
    reply: ReplyView,
)
    requires
        spec_answers(handler, unit, request, reply),
    ensures
        spec_reply_kind(request, reply),
{
}

/// Hands a decoded request to the method of the handler that serves its
/// kind, and gathers what the handler answers as the `Reply::from_*` say.
pub fn call_handler<'a, H: ServerHandler>(
    handler: &mut H,
    unit: UnitId,
    request: ServerRequest<'a>,
) -> (reply: Reply)
    requires
        request.wf(),
    ensures
        spec_answers(*old(handler), unit, request@, reply@),
        spec_reply_kind(request@, reply@),
{
    match request {
        ServerRequest::ReadCoils(range) => {
            let reply = Reply::from_bits(handler.read_coils(range, unit));
            assert(spec_answers_read_coils(*old(handler), range, unit, reply@));
            reply
        },
        ServerRequest::ReadDiscreteInputs(range) => {
            let reply = Reply::from_bits(handler.read_discrete_inputs(range, unit));
            assert(spec_answers_read_discrete_inputs(*old(handler), range, unit, reply@));
            reply
        },
        ServerRequest::ReadHoldingRegisters(range) => {
            let reply = Reply::from_registers(handler.read_holding_registers(range, unit));
            assert(spec_answers_read_holding_registers(*old(handler), range, unit, reply@));
            reply
        },
        ServerRequest::ReadInputRegisters(range) => {
            let reply = Reply::from_registers(handler.read_input_registers(range, unit));
            assert(spec_answers_read_input_registers(*old(handler), range, unit, reply@));
            reply
        },
        ServerRequest::WriteSingleCoil(value) => {
            let reply = Reply::from_write(handler.write_single_coil(value, unit));
            assert(spec_answers_write_single_coil(*old(handler), value, unit, reply@));
            reply
        },
        ServerRequest::WriteSingleRegister(value) => {
            let reply = Reply::from_write(handler.write_single_register(value, unit));
            assert(spec_answers_write_single_register(*old(handler), value, unit, reply@));
            reply
        },
        ServerRequest::WriteMultipleCoils(write) => {
            let reply = Reply::from_write(handler.write_multiple_coils(write, unit));
            assert(write.range == (AddressRange {
                start: write.range.start,
                count: write.iterator@.len() as u16,
            }));
            assert(spec_answers_write_multiple_coils(
                *old(handler),
                write.range,
                write.iterator@,
                unit,
                reply@,
            ));
            reply
        },
        ServerRequest::WriteMultipleRegisters(write) => {
            let reply = Reply::from_write(handler.write_multiple_registers(write, unit));
            assert(write.range == (AddressRange {
                start: write.range.start,
                count: write.iterator@.len() as u16,
            }));
            assert(spec_answers_write_multiple_registers(
                *old(handler),
                write.range,
                write.iterator@,
                unit,
                reply@,
            ));
            reply
        },
    }
}

/// What serving a request for `unit` comes to: the protocol data unit
/// that encodes what the handler answers.
pub open spec fn spec_replies<H: ServerHandler>(
    handler: H,
    unit: UnitId,
    request: RequestView,
    reply: Seq<u8>,
) -> bool {
    exists|answer: ReplyView|
        spec_answers(handler, unit, request, answer) && reply == #[trigger] spec_reply_pdu(
            request,
            answer,
        )
}

/// Serves one protocol data unit: decodes it, has the handler answer the
/// request, and encodes the reply. What does not decode is answered with
/// an exception, and never reaches the handler; an empty unit gets no
/// reply. What the handler answers is encoded as `serialize_reply` says.
pub fn process<H: ServerHandler>(handler: &mut H, unit: UnitId, pdu: &[u8]) -> (reply: Option<
    Vec<u8>,
>)
    ensures
        match spec_parse_request(pdu@) {
            Err(err) => match reply {
                Some(bytes) => spec_rejection(pdu@, err) == Some(bytes@),
                None => spec_rejection(pdu@, err).is_none(),
            },
            Ok(request) => reply.is_some() && spec_replies(
                *old(handler),
                unit,
                request,
                reply.unwrap()@,
            ),
        },
        reply matches Some(bytes) ==> 2 <= bytes@.len() <= MAX_PDU_SIZE,
{
    let request = match ServerRequest::parse_pdu(pdu) {
        Ok(request) => request,
        Err(err) => {
            if pdu.len() < 1 {
                return None;
            }
            let code = match err {
                Error::Exception(ExceptionCode::IllegalFunction) => ExceptionCode::IllegalFunction,
                _ => ExceptionCode::IllegalDataValue,
            };
            return Some(serialize_exception(pdu[0], code));
        },
    };
    let answer = call_handler(handler, unit, request);
    let bytes = serialize_reply(&request, &answer);
    assert(spec_answers(*old(handler), unit, request@, answer@) && bytes@ == spec_reply_pdu(
        request@,
        answer@,
    ));
    Some(bytes)
}

/// A frame that was served: the frame of the reply, if there is one, and
/// the bytes of the buffer that the frame of the request took up.
#[derive(Debug, Clone, PartialEq)]
pub struct Served {
    pub reply: Option<Vec<u8>>,
    pub consumed: usize,
}

/// Whether `reply` is what serving a frame comes to: the reply to its
/// protocol data unit, which the handler answers for the unit of the
/// frame, under the transaction and the unit of the frame.
pub open spec fn spec_served<H: ServerHandler>(
    handler: H,
    header: FrameHeader,
    pdu: Seq<u8>,
    reply: Option<Seq<u8>>,
) -> bool {
    match spec_parse_request(pdu) {
        Err(err) => reply == match spec_rejection(pdu, err) {
            Some(answer) => Some(spec_format_mbap(header, answer)),
            None => None,
        },
        Ok(request) => exists|answer: Seq<u8>|
            #[trigger] spec_replies(handler, header.unit_id, request, answer) && reply == Some(
                spec_format_mbap(header, answer),
            ),
    }
}

/// Serves the frame at the front of a buffer: `Ok(None)` while the frame
/// is not complete, the error of a frame that is none, and else the frame
/// of the reply, which echoes the transaction and the unit of the request.
pub fn process_mbap<H: ServerHandler>(handler: &mut H, buffer: &[u8]) -> (r: Result<
    Option<Served>,
    ADUParseError,
>)
    ensures
        match spec_parse_mbap(buffer@) {
            Err(err) => r matches Err(e) && e == err,
            Ok(None) => r matches Ok(None),
            Ok(Some(frame)) => r matches Ok(Some(served)) && served.consumed == frame.consumed
                && spec_served(
                *old(handler),
                frame.header,
                frame.pdu,
                match served.reply {
                    Some(bytes) => Some(bytes@),
                    None => None,
                },
            ),
        },
{
    let frame = match parse_mbap(buffer) {
        Err(err) => {
            return Err(err);
        },
        Ok(None) => {
            return Ok(None);
        },
        Ok(Some(frame)) => frame,
    };
    let reply = match process(handler, frame.header.unit_id, frame.pdu) {
        None => None,
        Some(pdu) => match format_mbap(frame.header, pdu.as_slice()) {
            Ok(bytes) => Some(bytes),
            Err(_) => None,
        },
    };
    Ok(Some(Served { reply, consumed: frame.consumed }))
}

/// What serving the front of a serial buffer comes to.
#[derive(Debug, Clone, PartialEq)]
pub enum RtuServed {
    /// The frame is not complete: read on.
    NeedMore,
    /// The checksum is wrong: drop the first byte of the buffer and look
    /// again.
    Resync,
    /// A frame was served.
    Served(Served),
}

/// Whether `reply` is what serving a serial frame comes to: the reply to
/// its protocol data unit, which the handler answers for the unit of the
/// frame, from that unit.
pub open spec fn spec_served_rtu<H: ServerHandler>(
    handler: H,
    unit_id: UnitId,
    pdu: Seq<u8>,
    reply: Option<Seq<u8>>,
) -> bool {
    match spec_parse_request(pdu) {
        Err(err) => reply == match spec_rejection(pdu, err) {
            Some(answer) => Some(spec_format_rtu(unit_id, answer)),
            None => None,
        },
        Ok(request) => exists|answer: Seq<u8>|
            #[trigger] spec_replies(handler, unit_id, request, answer) && reply == Some(
                spec_format_rtu(unit_id, answer),
            ),
    }
}

/// Serves the frame at the front of a serial buffer: the advice of the
/// framer while there is no frame, the error of a frame that is none, and
/// else the frame of the reply, from the unit of the request.
pub fn process_rtu<H: ServerHandler>(handler: &mut H, buffer: &[u8]) -> (r: Result<
    RtuServed,
    ADUParseError,
>)
    ensures
        match spec_parse_rtu(FrameKind::Request, buffer@) {
            Err(err) => r matches Err(e) && e == err,
            Ok(RtuStepView::NeedMore) => r matches Ok(RtuServed::NeedMore),
            Ok(RtuStepView::Resync) => r matches Ok(RtuServed::Resync),
            Ok(RtuStepView::Frame { unit_id, pdu, consumed }) => r matches Ok(
                RtuServed::Served(served),
            ) && served.consumed == consumed && spec_served_rtu(
                *old(handler),
                unit_id,
                pdu,
                match served.reply {
                    Some(bytes) => Some(bytes@),
                    None => None,
                },
            ),
        },
{
    let frame = match parse_rtu(FrameKind::Request, buffer) {
        Err(err) => {
            return Err(err);
        },
        Ok(RtuStep::NeedMore) => {
            return Ok(RtuServed::NeedMore);
        },
        Ok(RtuStep::Resync) => {
            return Ok(RtuServed::Resync);
        },
        Ok(RtuStep::Frame(frame)) => frame,
    };
    let reply = match process(handler, frame.unit_id, frame.pdu) {
        None => None,
        Some(pdu) => match format_rtu(frame.unit_id, pdu.as_slice()) {
            Ok(bytes) => Some(bytes),
            Err(_) => None,
        },
    };
    Ok(RtuServed::Served(Served { reply, consumed: frame.consumed }))
}

} // verus!
