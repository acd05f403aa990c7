//! The MBAP framing: a header of seven bytes before each protocol data
//! unit.

use vstd::prelude::*;
use vstd::slice::slice_subrange;

use crate::common::frame::FrameHeader;
use crate::constants::frame::{MAX_MBAP_LENGTH, MAX_PDU_SIZE, MBAP_HEADER_SIZE};
use crate::error::details::{ADUParseError, InternalError};
use crate::types::UnitId;
use crate::util::cursor::{
    lemma_u16_be_roundtrip, spec_u16_from_be, spec_u16_to_be, u16_from_be,
};

verus! {

/// A frame found at the front of a buffer.
#[derive(Clone, Copy, Debug)]
pub struct MbapFrame<'a> {
    /// transaction and unit of the frame
    pub header: FrameHeader,
    /// the protocol data unit that the frame carries
    pub pdu: &'a [u8],
    /// bytes of the buffer that the frame takes up
    pub consumed: usize,
}

/// What a frame found in a buffer says.
pub struct MbapFrameView {
    pub header: FrameHeader,
    pub pdu: Seq<u8>,
    pub consumed: nat,
}

impl<'a> View for MbapFrame<'a> {
    type V = MbapFrameView;

    open spec fn view(&self) -> MbapFrameView {
        MbapFrameView { header: self.header, pdu: self.pdu@, consumed: self.consumed as nat }
    }
}

/// The frame that carries `pdu`: transaction, protocol identifier 0, the
/// number of bytes that follow, the unit, and the protocol data unit.
pub open spec fn spec_format_mbap(header: FrameHeader, pdu: Seq<u8>) -> Seq<u8> {
    spec_u16_to_be(header.tx_id) + spec_u16_to_be(0) + spec_u16_to_be((pdu.len() + 1) as u16)
        + seq![header.unit_id.value] + pdu
}

/// What the front of a buffer holds: `Ok(None)` while the frame is not
/// complete; an error for a protocol identifier other than 0, a length
/// beyond 254, or a length of 0; else the frame.
pub open spec fn spec_parse_mbap(buffer: Seq<u8>) -> Result<Option<MbapFrameView>, ADUParseError> {
    if buffer.len() < MBAP_HEADER_SIZE {
        Ok(None)
    } else {
        let tx_id = spec_u16_from_be(buffer[0], buffer[1]);
        let protocol_id = spec_u16_from_be(buffer[2], buffer[3]);
        let length = spec_u16_from_be(buffer[4], buffer[5]);
        if protocol_id != 0 {
            Err(ADUParseError::UnknownProtocolId(protocol_id))
        } else if length > MAX_MBAP_LENGTH {
            Err(ADUParseError::FrameOverflow)
        } else if length < 1 {
            Err(ADUParseError::InsufficientBytes)
        } else if buffer.len() < 6 + length {
            Ok(None)
        } else {
            Ok(
                Some(
                    MbapFrameView {
                        header: FrameHeader { unit_id: UnitId { value: buffer[6] }, tx_id },
                        pdu: buffer.subrange(7, 6 + length),
                        consumed: (6 + length) as nat,
                    },
                ),
            )
        }
    }
}

/// Puts the header before a protocol data unit. One of more than 253
/// bytes gives `ADUTooBig` with its length.
pub fn format_mbap(header: FrameHeader, pdu: &[u8]) -> (r: Result<Vec<u8>, InternalError>)
    ensures
        pdu@.len() <= MAX_PDU_SIZE ==> r.is_ok() && r.unwrap()@ == spec_format_mbap(header, pdu@),
        pdu@.len() > MAX_PDU_SIZE ==> r == Err::<Vec<u8>, InternalError>(
            InternalError::ADUTooBig(pdu@.len() as usize),
        ),
{
    let len: usize = pdu.len();
    if len > MAX_PDU_SIZE {
        return Err(InternalError::ADUTooBig(len));
    }
    let length: u16 = (len + 1) as u16;
    let mut frame: Vec<u8> = Vec::with_capacity(MBAP_HEADER_SIZE + len);
    frame.push((header.tx_id >> 8) as u8);
    frame.push((header.tx_id & 0xFF) as u8);
    frame.push(0);
    frame.push(0);
    frame.push((length >> 8) as u8);
    frame.push((length & 0xFF) as u8);
    frame.push(header.unit_id.value);
    assert(((0u16 >> 8) as u8) == 0u8 && ((0u16 & 0xFF) as u8) == 0u8) by (bit_vector);
    let ghost head = frame@;
    assert(head =~= spec_u16_to_be(header.tx_id) + spec_u16_to_be(0) + spec_u16_to_be(length)
        + seq![header.unit_id.value]);
    let mut i: usize = 0;
    while i < len
        invariant
            i <= len,
            len == pdu@.len(),
            frame@ == head + pdu@.take(i as int),
        decreases len - i,
    {
        frame.push(pdu[i]);
        assert(frame@ =~= head + pdu@.take(i + 1));
        i = i + 1;
    }
    assert(frame@ =~= spec_format_mbap(header, pdu@));
    Ok(frame)
}

/// Looks for a frame at the front of a buffer.
pub fn parse_mbap<'a>(buffer: &'a [u8]) -> (r: Result<Option<MbapFrame<'a>>, ADUParseError>)
    ensures
        match r {
            Ok(Some(frame)) => spec_parse_mbap(buffer@) == Ok::<
                Option<MbapFrameView>,
                ADUParseError,
            >(Some(frame@)),
            Ok(None) => spec_parse_mbap(buffer@) == Ok::<Option<MbapFrameView>, ADUParseError>(
                None,
            ),
            Err(err) => spec_parse_mbap(buffer@) == Err::<Option<MbapFrameView>, ADUParseError>(
                err,
            ),
        },
{
    if buffer.len() < MBAP_HEADER_SIZE {
        return Ok(None);
    }
    let tx_id: u16 = u16_from_be(buffer[0], buffer[1]);
    let protocol_id: u16 = u16_from_be(buffer[2], buffer[3]);
    let length: u16 = u16_from_be(buffer[4], buffer[5]);
    if protocol_id != 0 {
        return Err(ADUParseError::UnknownProtocolId(protocol_id));
    }
    if length > MAX_MBAP_LENGTH {
        return Err(ADUParseError::FrameOverflow);
    }
    if length < 1 {
        return Err(ADUParseError::InsufficientBytes);
    }
    let end: usize = 6 + length as usize;
    if buffer.len() < end {
        return Ok(None);
    }
    let header = FrameHeader::new(UnitId::new(buffer[6]), tx_id);
    let pdu: &'a [u8] = slice_subrange(buffer, 7, end);
    Ok(Some(MbapFrame { header, pdu, consumed: end }))
}

/// A frame is found again at the front of whatever it was put before,
/// with its transaction, its unit and its protocol data unit.
pub proof fn lemma_mbap_roundtrip(header: FrameHeader, pdu: Seq<u8>, rest: Seq<u8>)
    requires
        pdu.len() <= MAX_PDU_SIZE,
    ensures
        spec_parse_mbap(spec_format_mbap(header, pdu) + rest) == Ok::<
            Option<MbapFrameView>,
            ADUParseError,
        >(Some(MbapFrameView { header, pdu, consumed: 7 + pdu.len() })),
{
    let length = (pdu.len() + 1) as u16;
    let frame = spec_format_mbap(header, pdu);
    let buffer = frame + rest;
    lemma_u16_be_roundtrip(header.tx_id);
    lemma_u16_be_roundtrip(0);
    lemma_u16_be_roundtrip(length);
    assert(frame.len() == 7 + pdu.len());
    assert(buffer[0] == spec_u16_to_be(header.tx_id)[0]);
    assert(buffer[1] == spec_u16_to_be(header.tx_id)[1]);
    assert(buffer[2] == spec_u16_to_be(0)[0]);
    assert(buffer[3] == spec_u16_to_be(0)[1]);
    assert(buffer[4] == spec_u16_to_be(length)[0]);
    assert(buffer[5] == spec_u16_to_be(length)[1]);
    assert(buffer[6] == header.unit_id.value);
    assert(buffer.subrange(7, 6 + length) =~= pdu);
}

} // verus!
