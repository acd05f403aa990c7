//! The RTU framing: the unit, the protocol data unit, and a checksum,
//! low byte first. Where a frame ends follows from its function byte.

use vstd::prelude::*;
use vstd::slice::slice_subrange;

use crate::constants::frame::MAX_PDU_SIZE;
use crate::error::details::{ADUParseError, InternalError};
use crate::serial::crc::{crc16, spec_crc16};
use crate::service::function::{is_exception_function, spec_is_exception_function, FunctionCode};
use crate::types::UnitId;
use crate::util::cursor::{spec_high_byte, spec_low_byte};

verus! {

/// Which way a frame travels, which decides how its length is found.
#[derive(Clone, Copy, Debug, PartialEq, Eq, Structural)]
pub enum FrameKind {
    /// from client to server
    Request,
    /// from server to client
    Response,
}

/// A frame found at the front of a buffer.
#[derive(Clone, Copy, Debug)]
pub struct RtuFrame<'a> {
    /// the unit that the frame is for, or from
    pub unit_id: UnitId,
    /// the protocol data unit that the frame carries
    pub pdu: &'a [u8],
    /// bytes of the buffer that the frame takes up
    pub consumed: usize,
}

/// What the framer found at the front of a buffer.
#[derive(Clone, Copy, Debug)]
pub enum RtuStep<'a> {
    /// The frame is not complete: read on.
    NeedMore,
    /// The checksum is wrong: drop the first byte of the buffer and look
    /// again.
    Resync,
    /// A frame with the right checksum.
    Frame(RtuFrame<'a>),
}

/// What a step of the framer says.
pub enum RtuStepView {
    NeedMore,
    Resync,
    Frame { unit_id: UnitId, pdu: Seq<u8>, consumed: nat },
}

impl<'a> View for RtuStep<'a> {
    type V = RtuStepView;

    open spec fn view(&self) -> RtuStepView {
        match self {
            RtuStep::NeedMore => RtuStepView::NeedMore,
            RtuStep::Resync => RtuStepView::Resync,
            RtuStep::Frame(frame) => RtuStepView::Frame {
                unit_id: frame.unit_id,
                pdu: frame.pdu@,
                consumed: frame.consumed as nat,
            },
        }
    }
}

/// The frame that carries `pdu`: the unit, the protocol data unit, and the
/// checksum of both, low byte first.
pub open spec fn spec_format_rtu(unit_id: UnitId, pdu: Seq<u8>) -> Seq<u8> {
    let body = seq![unit_id.value] + pdu;
    let crc = spec_crc16(body);
    body + seq![spec_low_byte(crc), spec_high_byte(crc)]
}

/// The length of the protocol data unit at the front of a buffer, which
/// starts with the unit and the function byte: `Ok(None)` while the bytes
/// that decide it are missing. A read, a write of one point and the echo
/// of any write have five bytes; a write of several points has six and
/// those that its byte count declares; the response to a read has two and
/// those that its byte count declares; an exception response has two.
pub open spec fn spec_rtu_pdu_len(kind: FrameKind, buffer: Seq<u8>) -> Result<
    Option<nat>,
    ADUParseError,
> {
    if buffer.len() < 2 {
        Ok(None)
    } else if kind == FrameKind::Response && spec_is_exception_function(buffer[1]) {
        Ok(Some(2))
    } else {
        match FunctionCode::spec_get(buffer[1]) {
            None => Err(ADUParseError::UnknownResponseFunction(buffer[1])),
            Some(function) => {
                let several = function == FunctionCode::WriteMultipleCoils || function
                    == FunctionCode::WriteMultipleRegisters;
                let single = function == FunctionCode::WriteSingleCoil || function
                    == FunctionCode::WriteSingleRegister;
                if kind == FrameKind::Request && several {
                    if buffer.len() < 7 {
                        Ok(None)
                    } else if 6 + buffer[6] > MAX_PDU_SIZE {
                        Err(ADUParseError::FrameOverflow)
                    } else {
                        Ok(Some((6 + buffer[6]) as nat))
                    }
                } else if kind == FrameKind::Response && !several && !single {
                    if buffer.len() < 3 {
                        Ok(None)
                    } else if 2 + buffer[2] > MAX_PDU_SIZE {
                        Err(ADUParseError::FrameOverflow)
                    } else {
                        Ok(Some((2 + buffer[2]) as nat))
                    }
                } else {
                    Ok(Some(5))
                }
            },
        }
    }
}

/// What the framer finds at the front of a buffer: with the length of the
/// protocol data unit known and the frame complete, the frame if its
/// checksum is right, and else the advice to drop the first byte.
pub open spec fn spec_parse_rtu(kind: FrameKind, buffer: Seq<u8>) -> Result<
    RtuStepView,
    ADUParseError,
> {
    match spec_rtu_pdu_len(kind, buffer) {
        Err(err) => Err(err),
        Ok(None) => Ok(RtuStepView::NeedMore),
        Ok(Some(pdu_len)) => if buffer.len() < pdu_len + 3 {
            Ok(RtuStepView::NeedMore)
        } else {
            let len = pdu_len as int;
            let crc = spec_crc16(buffer.take(1 + len));
            if buffer[1 + len] == spec_low_byte(crc) && buffer[2 + len] == spec_high_byte(crc) {
                Ok(
                    RtuStepView::Frame {
                        unit_id: UnitId { value: buffer[0] },
                        pdu: buffer.subrange(1, 1 + len),
                        consumed: pdu_len + 3,
                    },
                )
            } else {
                Ok(RtuStepView::Resync)
            }
        },
    }
}

/// Puts the unit before a protocol data unit and the checksum behind it.
/// One of more than 253 bytes gives `ADUTooBig` with its length.
pub fn format_rtu(unit_id: UnitId, pdu: &[u8]) -> (r: Result<Vec<u8>, InternalError>)
    ensures
        pdu@.len() <= MAX_PDU_SIZE ==> r.is_ok() && r.unwrap()@ == spec_format_rtu(unit_id, pdu@),
        pdu@.len() > MAX_PDU_SIZE ==> r == Err::<Vec<u8>, InternalError>(
            InternalError::ADUTooBig(pdu@.len() as usize),
        ),
{
    let len: usize = pdu.len();
    if len > MAX_PDU_SIZE {
        return Err(InternalError::ADUTooBig(len));
    }
    let mut frame: Vec<u8> = Vec::with_capacity(len + 3);
    frame.push(unit_id.value);
    let mut i: usize = 0;
    while i < len
        invariant
            i <= len,
            len == pdu@.len(),
            frame@ == seq![unit_id.value] + pdu@.take(i as int),
        decreases len - i,
    {
        frame.push(pdu[i]);
        assert(frame@ =~= seq![unit_id.value] + pdu@.take(i + 1));
        i = i + 1;
    }
    assert(frame@ =~= seq![unit_id.value] + pdu@);
    let crc: u16 = crc16(frame.as_slice());
    frame.push((crc & 0xFF) as u8);
    frame.push((crc >> 8) as u8);
    assert(frame@ =~= spec_format_rtu(unit_id, pdu@));
    Ok(frame)
}

/// Finds the length of the protocol data unit at the front of a buffer.
pub fn rtu_pdu_len(kind: FrameKind, buffer: &[u8]) -> (r: Result<Option<usize>, ADUParseError>)
    ensures
        match r {
            Ok(Some(len)) => spec_rtu_pdu_len(kind, buffer@) == Ok::<Option<nat>, ADUParseError>(
                Some(len as nat),
            ) && 2 <= len <= MAX_PDU_SIZE,
            Ok(None) => spec_rtu_pdu_len(kind, buffer@) == Ok::<Option<nat>, ADUParseError>(None),
            Err(err) => spec_rtu_pdu_len(kind, buffer@) == Err::<Option<nat>, ADUParseError>(err),
        },
{
    if buffer.len() < 2 {
        return Ok(None);
    }
    let byte: u8 = buffer[1];
    let response: bool = match kind {
        FrameKind::Response => true,
        FrameKind::Request => false,
    };
    if response && is_exception_function(byte) {
        return Ok(Some(2));
    }
    let function = match FunctionCode::get(byte) {
        Some(function) => function,
        None => {
            return Err(ADUParseError::UnknownResponseFunction(byte));
        },
    };
    let (several, single) = match function {
        FunctionCode::WriteMultipleCoils => (true, false),
        FunctionCode::WriteMultipleRegisters => (true, false),
        FunctionCode::WriteSingleCoil => (false, true),
        FunctionCode::WriteSingleRegister => (false, true),
        _ => (false, false),
    };
    if !response && several {
        if buffer.len() < 7 {
            return Ok(None);
        }
        let len: usize = 6 + buffer[6] as usize;
        if len > MAX_PDU_SIZE {
            return Err(ADUParseError::FrameOverflow);
        }
        Ok(Some(len))
    } else if response && !several && !single {
        if buffer.len() < 3 {
            return Ok(None);
        }
        let len: usize = 2 + buffer[2] as usize;
        if len > MAX_PDU_SIZE {
            return Err(ADUParseError::FrameOverflow);
        }
        Ok(Some(len))
    } else {
        Ok(Some(5))
    }
}

/// Looks for a frame at the front of a buffer.
pub fn parse_rtu<'a>(kind: FrameKind, buffer: &'a [u8]) -> (r: Result<RtuStep<'a>, ADUParseError>)
    ensures
        match r {
            Ok(step) => spec_parse_rtu(kind, buffer@) == Ok::<RtuStepView, ADUParseError>(step@),
            Err(err) => spec_parse_rtu(kind, buffer@) == Err::<RtuStepView, ADUParseError>(err),
        },
{
    let len: usize = match rtu_pdu_len(kind, buffer) {
        Err(err) => {
            return Err(err);
        },
        Ok(None) => {
            return Ok(RtuStep::NeedMore);
        },
        Ok(Some(len)) => len,
    };
    if buffer.len() < len + 3 {
        return Ok(RtuStep::NeedMore);
    }
    let checked: &'a [u8] = slice_subrange(buffer, 0, 1 + len);
    assert(checked@ =~= buffer@.take(1 + len));
    let crc: u16 = crc16(checked);
    if buffer[1 + len] == (crc & 0xFF) as u8 && buffer[2 + len] == (crc >> 8) as u8 {
        let pdu: &'a [u8] = slice_subrange(buffer, 1, 1 + len);
        Ok(RtuStep::Frame(RtuFrame { unit_id: UnitId::new(buffer[0]), pdu, consumed: len + 3 }))
    } else {
        Ok(RtuStep::Resync)
    }
}

/// A frame whose protocol data unit has the length that its function byte
/// calls for is found again at the front of whatever it was put before,
/// with its unit and its protocol data unit.
pub proof fn lemma_rtu_roundtrip(kind: FrameKind, unit_id: UnitId, pdu: Seq<u8>, rest: Seq<u8>)
    requires
        spec_rtu_pdu_len(kind, spec_format_rtu(unit_id, pdu)) == Ok::<Option<nat>, ADUParseError>(
            Some(pdu.len()),
        ),
    ensures
        spec_parse_rtu(kind, spec_format_rtu(unit_id, pdu) + rest) == Ok::<
            RtuStepView,
            ADUParseError,
        >(RtuStepView::Frame { unit_id, pdu, consumed: pdu.len() + 3 }),
{
    let frame = spec_format_rtu(unit_id, pdu);
    let buffer = frame + rest;
    let body = seq![unit_id.value] + pdu;
    assert(frame.len() == pdu.len() + 3);
    assert(buffer.take(1 + pdu.len() as int) =~= body);
    assert(buffer.subrange(1, 1 + pdu.len() as int) =~= pdu);
    assert(buffer[0] == unit_id.value);
    assert(forall|i: int| 0 <= i < frame.len() ==> buffer[i] == frame[i]);
    assert(spec_rtu_pdu_len(kind, buffer) == spec_rtu_pdu_len(kind, frame));
}

} // verus!
