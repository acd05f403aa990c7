use rodbus::client::message::{parse_response_function, Request, Response};
use rodbus::error::details::{
    ADUParseError, ExceptionCode, InternalError, InvalidRange, InvalidRequest,
};
use rodbus::error::Error;
use rodbus::server::request::ServerRequest;
use rodbus::server::response::{serialize_exception, serialize_reply, Reply};
use rodbus::service::function::{exception_function, is_exception_function, FunctionCode};
use rodbus::service::serialization::serializers::{
    byte_count_for_bits, byte_count_for_registers, serialize_bits, serialize_registers,
};
use rodbus::service::traits::{ParseRequest, ParseResponse, Serialize};
use rodbus::types::{AddressRange, BitIterator, Indexed, RegisterIterator, WriteMultiple};
use rodbus::util::bits::{get_bit, num_bytes_for_bits, pack_byte};
use rodbus::util::cursor::{u16_from_be, ReadCursor, WriteCursor};

fn range(start: u16, count: u16) -> AddressRange {
    AddressRange::try_from(start, count).unwrap()
}

fn sample_bits(n: usize) -> Vec<bool> {
    (0..n).map(|i| (i * 7 + i / 3) % 5 < 2).collect()
}

fn sample_registers(n: usize) -> Vec<u16> {
    (0..n).map(|i| (i as u16).wrapping_mul(0x1357) ^ 0xA5C3).collect()
}

#[test]
fn read_coils_request_and_response() {
    let request = Request::ReadCoils(range(0, 3));
    assert_eq!(request.to_pdu().unwrap(), vec![0x01, 0x00, 0x00, 0x00, 0x03]);
    assert_eq!(
        request.parse_response(&[0x01, 0x01, 0x05]),
        Ok(Response::ReadCoils(vec![
            Indexed::new(0, true),
            Indexed::new(1, false),
            Indexed::new(2, true)
        ]))
    );
}

#[test]
fn read_holding_registers_request_and_response() {
    let request = Request::ReadHoldingRegisters(range(1, 2));
    assert_eq!(request.to_pdu().unwrap(), vec![0x03, 0x00, 0x01, 0x00, 0x02]);
    assert_eq!(
        request.parse_response(&[0x03, 0x04, 0xFF, 0xFF, 0x01, 0xCC]),
        Ok(Response::ReadHoldingRegisters(vec![
            Indexed::new(1, 0xFFFF),
            Indexed::new(2, 0x01CC)
        ]))
    );
}

#[test]
fn write_single_coil_request_and_echo() {
    let request = Request::WriteSingleCoil(Indexed::new(5, true));
    let pdu = request.to_pdu().unwrap();
    assert_eq!(pdu, vec![0x05, 0x00, 0x05, 0xFF, 0x00]);
    assert_eq!(
        request.parse_response(&pdu),
        Ok(Response::WriteSingleCoil(Indexed::new(5, true)))
    );
    assert_eq!(
        request.parse_response(&[0x05, 0x00, 0x05, 0x00, 0x00]),
        Err(Error::BadResponse(ADUParseError::ReplyEchoMismatch))
    );
    assert_eq!(
        request.parse_response(&[0x05, 0x00, 0x05, 0x00, 0x01]),
        Err(Error::BadResponse(ADUParseError::ReplyEchoMismatch))
    );
    let off = Request::WriteSingleCoil(Indexed::new(5, false));
    assert_eq!(off.to_pdu().unwrap(), vec![0x05, 0x00, 0x05, 0x00, 0x00]);
}

#[test]
fn write_single_register_request_and_echo() {
    let request = Request::WriteSingleRegister(Indexed::new(0x0102, 0xA1B2));
    let pdu = request.to_pdu().unwrap();
    assert_eq!(pdu, vec![0x06, 0x01, 0x02, 0xA1, 0xB2]);
    assert_eq!(
        request.parse_response(&pdu),
        Ok(Response::WriteSingleRegister(Indexed::new(0x0102, 0xA1B2)))
    );
    assert_eq!(
        request.parse_response(&[0x06, 0x01, 0x02, 0xA1, 0xB3]),
        Err(Error::BadResponse(ADUParseError::ReplyEchoMismatch))
    );
}

#[test]
fn write_multiple_registers_request_and_response() {
    let request = Request::WriteMultipleRegisters(WriteMultiple::new(10, vec![0xAAAA, 0xBBBB]));
    assert_eq!(
        request.to_pdu().unwrap(),
        vec![0x10, 0x00, 0x0A, 0x00, 0x02, 0x04, 0xAA, 0xAA, 0xBB, 0xBB]
    );
    assert_eq!(
        request.parse_response(&[0x10, 0x00, 0x0A, 0x00, 0x02]),
        Ok(Response::WriteMultipleRegisters(range(10, 2)))
    );
    assert_eq!(
        request.parse_response(&[0x10, 0x00, 0x0A, 0x00, 0x01]),
        Err(Error::BadResponse(ADUParseError::ReplyEchoMismatch))
    );
}

#[test]
fn write_multiple_coils_request_and_response() {
    let values = vec![true, false, true, true, false, false, true, true, true, false];
    let request = Request::WriteMultipleCoils(WriteMultiple::new(0x0013, values));
    assert_eq!(
        request.to_pdu().unwrap(),
        vec![0x0F, 0x00, 0x13, 0x00, 0x0A, 0x02, 0xCD, 0x01]
    );
    assert_eq!(
        request.parse_response(&[0x0F, 0x00, 0x13, 0x00, 0x0A]),
        Ok(Response::WriteMultipleCoils(range(0x0013, 10)))
    );
}

#[test]
fn exception_response_is_delivered_as_exception() {
    let request = Request::ReadHoldingRegisters(range(1, 2));
    assert_eq!(
        request.parse_response(&[0x83, 0x02]),
        Err(Error::Exception(ExceptionCode::IllegalDataAddress))
    );
    assert_eq!(
        request.parse_response(&[0x83, 0x7F]),
        Err(Error::Exception(ExceptionCode::Unknown(0x7F)))
    );
    assert_eq!(
        request.parse_response(&[0x83]),
        Err(Error::BadResponse(ADUParseError::InsufficientBytes))
    );
}

#[test]
fn response_to_another_function_is_unknown() {
    let request = Request::ReadHoldingRegisters(range(1, 2));
    assert_eq!(
        request.parse_response(&[0x04, 0x04, 0, 0, 0, 0]),
        Err(Error::BadResponse(ADUParseError::UnknownResponseFunction(
            0x04
        )))
    );
    assert_eq!(
        request.parse_response(&[0x84, 0x02]),
        Err(Error::BadResponse(ADUParseError::UnknownResponseFunction(
            0x84
        )))
    );
    assert_eq!(
        request.parse_response(&[]),
        Err(Error::BadResponse(ADUParseError::InsufficientBytes))
    );
}

#[test]
fn every_function_byte_has_its_exception_byte() {
    for function in 1u8..=127 {
        let exception = exception_function(function);
        assert_eq!(exception, function | 0x80);
        assert_eq!(exception, function + 128);
        assert!(is_exception_function(exception));
        assert!(!is_exception_function(function));
        for code in [0u8, 1, 2, 3, 4, 5, 6, 7, 8, 9, 10, 11, 12, 0xFF] {
            let bytes = [exception, code];
            let mut cursor = ReadCursor::new(&bytes);
            assert_eq!(
                parse_response_function(&mut cursor, function),
                Err(Error::Exception(ExceptionCode::from_u8(code)))
            );
        }
        let bytes = [function, 0x00];
        let mut cursor = ReadCursor::new(&bytes);
        assert_eq!(parse_response_function(&mut cursor, function), Ok(()));
        assert_eq!(cursor.len(), 1);
    }
}

#[test]
fn exception_codes_map_to_their_wire_values() {
    let known = [
        (ExceptionCode::IllegalFunction, 0x01u8),
        (ExceptionCode::IllegalDataAddress, 0x02),
        (ExceptionCode::IllegalDataValue, 0x03),
        (ExceptionCode::ServerDeviceFailure, 0x04),
        (ExceptionCode::Acknowledge, 0x05),
        (ExceptionCode::ServerDeviceBusy, 0x06),
        (ExceptionCode::MemoryParityError, 0x08),
        (ExceptionCode::GatewayPathUnavailable, 0x0A),
        (ExceptionCode::GatewayTargetFailedToRespond, 0x0B),
    ];
    for (code, value) in known {
        assert_eq!(code.to_u8(), value);
        assert_eq!(ExceptionCode::from_u8(value), code);
    }
    for value in [0x00u8, 0x07, 0x09, 0x0C, 0x80, 0xFF] {
        assert_eq!(ExceptionCode::from_u8(value), ExceptionCode::Unknown(value));
        assert_eq!(ExceptionCode::Unknown(value).to_u8(), value);
    }
    for value in 0u8..=255 {
        assert_eq!(ExceptionCode::from_u8(value).to_u8(), value);
    }
}

#[test]
fn function_codes_map_to_their_wire_values() {
    let all = [
        (FunctionCode::ReadCoils, 1u8),
        (FunctionCode::ReadDiscreteInputs, 2),
        (FunctionCode::ReadHoldingRegisters, 3),
        (FunctionCode::ReadInputRegisters, 4),
        (FunctionCode::WriteSingleCoil, 5),
        (FunctionCode::WriteSingleRegister, 6),
        (FunctionCode::WriteMultipleCoils, 15),
        (FunctionCode::WriteMultipleRegisters, 16),
    ];
    for (function, value) in all {
        assert_eq!(function.get_value(), value);
        assert_eq!(FunctionCode::get(value), Some(function));
        assert_eq!(function.as_error(), value | 0x80);
    }
    for value in [0u8, 7, 14, 17, 0x81, 0xFF] {
        assert_eq!(FunctionCode::get(value), None);
    }
}

#[test]
fn preflight_rejects_counts_beyond_the_limit() {
    let request = Request::ReadCoils(range(0, 3000));
    assert_eq!(
        request.check_validity(),
        Err(InvalidRequest::CountTooBigForType(3000, 2000))
    );
    assert_eq!(
        request.to_pdu(),
        Err(Error::BadRequest(InvalidRequest::CountTooBigForType(
            3000, 2000
        )))
    );
    assert_eq!(
        Request::ReadDiscreteInputs(range(0, 2001)).check_validity(),
        Err(InvalidRequest::CountTooBigForType(2001, 2000))
    );
    assert_eq!(
        Request::ReadHoldingRegisters(range(0, 126)).check_validity(),
        Err(InvalidRequest::CountTooBigForType(126, 125))
    );
    assert_eq!(
        Request::ReadInputRegisters(range(0, 126)).check_validity(),
        Err(InvalidRequest::CountTooBigForType(126, 125))
    );
    assert_eq!(
        Request::WriteMultipleCoils(WriteMultiple::new(0, vec![true; 1969])).check_validity(),
        Err(InvalidRequest::CountTooBigForType(1969, 1968))
    );
    assert_eq!(
        Request::WriteMultipleRegisters(WriteMultiple::new(0, vec![7; 124])).check_validity(),
        Err(InvalidRequest::CountTooBigForType(124, 123))
    );
    assert_eq!(
        Request::WriteMultipleRegisters(WriteMultiple::new(0, vec![])).check_validity(),
        Err(InvalidRequest::BadRange(InvalidRange::CountOfZero))
    );
    assert_eq!(
        Request::ReadCoils(AddressRange {
            start: 0xFFFF,
            count: 2
        })
        .check_validity(),
        Err(InvalidRequest::BadRange(InvalidRange::AddressOverflow(
            0xFFFF, 2
        )))
    );
    assert_eq!(Request::ReadCoils(range(0, 2000)).check_validity(), Ok(()));
    assert_eq!(
        Request::WriteMultipleCoils(WriteMultiple::new(0, vec![true; 1968])).check_validity(),
        Ok(())
    );
    assert_eq!(
        Request::WriteSingleCoil(Indexed::new(0xFFFF, false)).check_validity(),
        Ok(())
    );
}

#[test]
fn invalid_request_is_refused_when_its_response_is_decoded() {
    let request = Request::ReadCoils(range(0, 3000));
    assert_eq!(
        request.parse_response(&[0x01, 0x01, 0x05]),
        Err(Error::BadRequest(InvalidRequest::CountTooBigForType(
            3000, 2000
        )))
    );
}

#[test]
fn largest_requests_fit_in_a_pdu() {
    let coils = Request::WriteMultipleCoils(WriteMultiple::new(0, sample_bits(1968)));
    assert_eq!(coils.to_pdu().unwrap().len(), 1 + 5 + 246);
    let registers =
        Request::WriteMultipleRegisters(WriteMultiple::new(0, sample_registers(123)));
    assert_eq!(registers.to_pdu().unwrap().len(), 1 + 5 + 246);
}

fn requests_of_every_kind() -> Vec<Request> {
    vec![
        Request::ReadCoils(range(0, 1)),
        Request::ReadCoils(range(0xF830, 2000)),
        Request::ReadDiscreteInputs(range(7, 9)),
        Request::ReadHoldingRegisters(range(0xFFFF, 1)),
        Request::ReadHoldingRegisters(range(3, 125)),
        Request::ReadInputRegisters(range(0x1234, 0x56)),
        Request::WriteSingleCoil(Indexed::new(0, false)),
        Request::WriteSingleCoil(Indexed::new(0xFFFF, true)),
        Request::WriteSingleRegister(Indexed::new(0xABCD, 0xEF01)),
        Request::WriteMultipleCoils(WriteMultiple::new(3, sample_bits(1))),
        Request::WriteMultipleCoils(WriteMultiple::new(3, sample_bits(8))),
        Request::WriteMultipleCoils(WriteMultiple::new(3, sample_bits(9))),
        Request::WriteMultipleCoils(WriteMultiple::new(0xF850, sample_bits(1968))),
        Request::WriteMultipleRegisters(WriteMultiple::new(0xFFFF, sample_registers(1))),
        Request::WriteMultipleRegisters(WriteMultiple::new(9, sample_registers(123))),
    ]
}

fn same_request(sent: &Request, received: &ServerRequest) -> bool {
    match (sent, received) {
        (Request::ReadCoils(a), ServerRequest::ReadCoils(b)) => a == b,
        (Request::ReadDiscreteInputs(a), ServerRequest::ReadDiscreteInputs(b)) => a == b,
        (Request::ReadHoldingRegisters(a), ServerRequest::ReadHoldingRegisters(b)) => a == b,
        (Request::ReadInputRegisters(a), ServerRequest::ReadInputRegisters(b)) => a == b,
        (Request::WriteSingleCoil(a), ServerRequest::WriteSingleCoil(b)) => a == b,
        (Request::WriteSingleRegister(a), ServerRequest::WriteSingleRegister(b)) => a == b,
        (Request::WriteMultipleCoils(a), ServerRequest::WriteMultipleCoils(b)) => {
            a.to_address_range() == Ok(b.range)
                && b.iterator.range() == b.range
                && a.values == b.iterator.collect()
        }
        (Request::WriteMultipleRegisters(a), ServerRequest::WriteMultipleRegisters(b)) => {
            a.to_address_range() == Ok(b.range)
                && b.iterator.range() == b.range
                && a.values == b.iterator.collect()
        }
        _ => false,
    }
}

#[test]
fn requests_decode_to_what_was_encoded() {
    for request in requests_of_every_kind() {
        let pdu = request.to_pdu().unwrap();
        assert_eq!(pdu[0], request.function().get_value());
        let decoded = ServerRequest::parse_pdu(&pdu).unwrap();
        assert_eq!(decoded.function(), request.function());
        assert!(same_request(&request, &decoded), "{:?}", request);
    }
}

#[test]
fn responses_decode_to_what_was_encoded() {
    for request in requests_of_every_kind() {
        let pdu = request.to_pdu().unwrap();
        let decoded = ServerRequest::parse_pdu(&pdu).unwrap();
        let (reply, expected) = match &request {
            Request::ReadCoils(r) => {
                let values = sample_bits(r.count as usize);
                let indexed = values
                    .iter()
                    .enumerate()
                    .map(|(i, v)| Indexed::new(r.start + i as u16, *v))
                    .collect();
                (Reply::Bits(values), Response::ReadCoils(indexed))
            }
            Request::ReadDiscreteInputs(r) => {
                let values = sample_bits(r.count as usize);
                let indexed = values
                    .iter()
                    .enumerate()
                    .map(|(i, v)| Indexed::new(r.start + i as u16, *v))
                    .collect();
                (Reply::Bits(values), Response::ReadDiscreteInputs(indexed))
            }
            Request::ReadHoldingRegisters(r) => {
                let values = sample_registers(r.count as usize);
                let indexed = values
                    .iter()
                    .enumerate()
                    .map(|(i, v)| Indexed::new(r.start + i as u16, *v))
                    .collect();
                (
                    Reply::Registers(values),
                    Response::ReadHoldingRegisters(indexed),
                )
            }
            Request::ReadInputRegisters(r) => {
                let values = sample_registers(r.count as usize);
                let indexed = values
                    .iter()
                    .enumerate()
                    .map(|(i, v)| Indexed::new(r.start + i as u16, *v))
                    .collect();
                (
                    Reply::Registers(values),
                    Response::ReadInputRegisters(indexed),
                )
            }
            Request::WriteSingleCoil(v) => (Reply::Written, Response::WriteSingleCoil(*v)),
            Request::WriteSingleRegister(v) => (Reply::Written, Response::WriteSingleRegister(*v)),
            Request::WriteMultipleCoils(w) => (
                Reply::Written,
                Response::WriteMultipleCoils(w.to_address_range().unwrap()),
            ),
            Request::WriteMultipleRegisters(w) => (
                Reply::Written,
                Response::WriteMultipleRegisters(w.to_address_range().unwrap()),
            ),
        };
        let bytes = serialize_reply(&decoded, &reply);
        assert!(bytes.len() <= 253);
        assert_eq!(request.parse_response(&bytes), Ok(expected), "{:?}", request);

        let refused = serialize_reply(&decoded, &Reply::Exception(ExceptionCode::ServerDeviceBusy));
        assert_eq!(refused, vec![request.function().get_value() | 0x80, 0x06]);
        assert_eq!(
            request.parse_response(&refused),
            Err(Error::Exception(ExceptionCode::ServerDeviceBusy))
        );
    }
}

#[test]
fn reply_of_the_wrong_kind_or_length_becomes_illegal_data_value() {
    let pdu = Request::ReadCoils(range(0, 3)).to_pdu().unwrap();
    let request = ServerRequest::parse_pdu(&pdu).unwrap();
    for reply in [
        Reply::Bits(vec![true, false]),
        Reply::Bits(vec![true; 4]),
        Reply::Registers(vec![1, 2, 3]),
        Reply::Written,
    ] {
        assert_eq!(serialize_reply(&request, &reply), vec![0x81, 0x03]);
    }
    let pdu = Request::WriteSingleRegister(Indexed::new(1, 2)).to_pdu().unwrap();
    let request = ServerRequest::parse_pdu(&pdu).unwrap();
    assert_eq!(
        serialize_reply(&request, &Reply::Registers(vec![2])),
        vec![0x86, 0x03]
    );
    assert_eq!(
        serialize_reply(&request, &Reply::Written),
        vec![0x06, 0x00, 0x01, 0x00, 0x02]
    );
    assert_eq!(
        serialize_exception(0x10, ExceptionCode::IllegalFunction),
        vec![0x90, 0x01]
    );
}

#[test]
fn packed_bits_unpack_to_the_same_bits() {
    for n in [1usize, 2, 7, 8, 9, 15, 16, 17, 63, 64, 65, 1999, 2000, 2040] {
        let bits = sample_bits(n);
        let mut cursor = WriteCursor::new(300);
        serialize_bits(&bits, &mut cursor).unwrap();
        let bytes = cursor.into_bytes();
        let count = (n + 7) / 8;
        assert_eq!(bytes.len(), 1 + count);
        assert_eq!(bytes[0] as usize, count);
        assert_eq!(num_bytes_for_bits(n as u16), count);
        let iterator = BitIterator::create(&bytes[1..], range(0, n as u16)).unwrap();
        assert_eq!(iterator.collect(), bits);
        if n % 8 != 0 {
            assert_eq!(bytes[count] >> (n % 8), 0);
        }
    }
}

#[test]
fn bits_are_packed_low_order_first() {
    let mut cursor = WriteCursor::new(16);
    serialize_bits(
        &[true, false, false, false, false, false, false, false, false, true],
        &mut cursor,
    )
    .unwrap();
    assert_eq!(cursor.written(), &[0x02, 0x01, 0x02]);
    assert_eq!(pack_byte(&[false, true, true], 0), 0x06);
    assert_eq!(pack_byte(&[true; 9], 1), 0x01);
    assert!(get_bit(0x80, 7));
    assert!(!get_bit(0x80, 6));
    assert!(get_bit(0x01, 0));
}

#[test]
fn packed_registers_unpack_to_the_same_registers() {
    for n in [1usize, 2, 3, 100, 125, 127] {
        let registers = sample_registers(n);
        let mut cursor = WriteCursor::new(300);
        serialize_registers(&registers, &mut cursor).unwrap();
        let bytes = cursor.into_bytes();
        assert_eq!(bytes.len(), 1 + 2 * n);
        assert_eq!(bytes[0] as usize, 2 * n);
        for (i, value) in registers.iter().enumerate() {
            assert_eq!(bytes[1 + 2 * i], (value >> 8) as u8);
            assert_eq!(bytes[2 + 2 * i], (value & 0xFF) as u8);
        }
        let iterator = RegisterIterator::create(&bytes[1..], range(0, n as u16)).unwrap();
        assert_eq!(iterator.collect(), registers);
    }
}

#[test]
fn registers_are_written_high_byte_first() {
    let mut cursor = WriteCursor::new(16);
    serialize_registers(&[0x1234, 0x00FF], &mut cursor).unwrap();
    assert_eq!(cursor.written(), &[0x04, 0x12, 0x34, 0x00, 0xFF]);
    assert_eq!(u16_from_be(0x12, 0x34), 0x1234);
}

#[test]
fn byte_counts_must_fit_in_a_byte() {
    assert_eq!(byte_count_for_bits(0), Ok(0));
    assert_eq!(byte_count_for_bits(1), Ok(1));
    assert_eq!(byte_count_for_bits(2040), Ok(255));
    assert_eq!(
        byte_count_for_bits(2041),
        Err(InternalError::BadByteCount(256))
    );
    assert_eq!(byte_count_for_registers(127), Ok(254));
    assert_eq!(
        byte_count_for_registers(128),
        Err(InternalError::BadByteCount(256))
    );
    assert_eq!(
        byte_count_for_registers(usize::MAX),
        Err(InternalError::BadByteCount(usize::MAX))
    );
    let mut cursor = WriteCursor::new(600);
    assert_eq!(
        serialize_bits(&vec![true; 2041], &mut cursor),
        Err(Error::Internal(InternalError::BadByteCount(256)))
    );
    assert_eq!(
        serialize_registers(&vec![1; 128], &mut cursor),
        Err(Error::Internal(InternalError::BadByteCount(256)))
    );
    assert_eq!(cursor.position(), 0);
}

#[test]
fn response_with_wrong_byte_count_fails_with_mismatch() {
    for (request, function, expected) in [
        (Request::ReadCoils(range(0, 3)), 1u8, 1usize),
        (Request::ReadCoils(range(10, 16)), 1, 2),
        (Request::ReadDiscreteInputs(range(0, 17)), 2, 3),
        (Request::ReadHoldingRegisters(range(1, 2)), 3, 4),
        (Request::ReadInputRegisters(range(1, 125)), 4, 250),
    ] {
        for declared in [0usize, expected - 1, expected + 1, 255] {
            let mut pdu = vec![function, declared as u8];
            pdu.extend(std::iter::repeat(0u8).take(declared));
            assert_eq!(
                request.parse_response(&pdu),
                Err(Error::BadResponse(ADUParseError::RequestByteCountMismatch(
                    expected, declared
                )))
            );
        }
    }
}

#[test]
fn serialization_leaves_a_full_window_as_it_was() {
    let mut cursor = WriteCursor::new(3);
    assert_eq!(
        range(1, 2).serialize(&mut cursor),
        Err(Error::Internal(InternalError::InsufficientBytesForWrite(
            4, 3
        )))
    );
    assert_eq!(cursor.position(), 0);
    cursor.write_u8(9).unwrap();
    assert_eq!(
        Indexed::new(1u16, true).serialize(&mut cursor),
        Err(Error::Internal(InternalError::InsufficientBytesForWrite(
            4, 2
        )))
    );
    assert_eq!(
        WriteMultiple::new(0, vec![1u16]).serialize(&mut cursor),
        Err(Error::Internal(InternalError::InsufficientBytesForWrite(
            7, 2
        )))
    );
    assert_eq!(
        WriteMultiple::new(0, vec![true]).serialize(&mut cursor),
        Err(Error::Internal(InternalError::InsufficientBytesForWrite(
            6, 2
        )))
    );
    assert_eq!(
        serialize_bits(&[true; 9], &mut cursor),
        Err(Error::Internal(InternalError::InsufficientBytesForWrite(
            3, 2
        )))
    );
    assert_eq!(cursor.written(), &[9]);
    let empty: WriteMultiple<u16> = WriteMultiple::new(0, vec![]);
    let mut cursor = WriteCursor::new(32);
    assert_eq!(
        empty.serialize(&mut cursor),
        Err(Error::BadRequest(InvalidRequest::BadRange(
            InvalidRange::CountOfZero
        )))
    );
    assert_eq!(cursor.position(), 0);
}

#[test]
fn bodies_serialize_to_their_wire_form() {
    let mut cursor = WriteCursor::new(64);
    range(0x0102, 0x0304).serialize(&mut cursor).unwrap();
    Indexed::new(0x0506u16, 0x0708u16)
        .serialize(&mut cursor)
        .unwrap();
    Indexed::new(0x090Au16, true).serialize(&mut cursor).unwrap();
    Indexed::new(0x0B0Cu16, false).serialize(&mut cursor).unwrap();
    assert_eq!(
        cursor.written(),
        &[1, 2, 3, 4, 5, 6, 7, 8, 9, 10, 0xFF, 0, 11, 12, 0, 0]
    );
    let mut cursor = WriteCursor::new(64);
    Request::WriteMultipleCoils(WriteMultiple::new(1, vec![true, true, false, true]))
        .serialize_body(&mut cursor)
        .unwrap();
    assert_eq!(cursor.written(), &[0, 1, 0, 4, 1, 0x0B]);
}

#[test]
fn request_bodies_parse_from_their_wire_form() {
    let mut cursor = ReadCursor::new(&[0x00, 0x0A, 0x00, 0x02, 0x99]);
    assert_eq!(AddressRange::parse(&mut cursor), Ok(range(10, 2)));
    assert_eq!(cursor.len(), 1);
    let mut cursor = ReadCursor::new(&[0xFF, 0xFF, 0x00, 0x02]);
    assert_eq!(
        AddressRange::parse(&mut cursor),
        Err(Error::BadRequest(InvalidRequest::BadRange(
            InvalidRange::AddressOverflow(0xFFFF, 2)
        )))
    );
    let mut cursor = ReadCursor::new(&[0x00, 0x0A, 0x00]);
    assert_eq!(
        AddressRange::parse(&mut cursor),
        Err(Error::BadResponse(ADUParseError::InsufficientBytes))
    );
    let mut cursor = ReadCursor::new(&[0x00, 0x05, 0xFF, 0x00]);
    assert_eq!(Indexed::<bool>::parse(&mut cursor), Ok(Indexed::new(5, true)));
    let mut cursor = ReadCursor::new(&[0x00, 0x05, 0xFF, 0x01]);
    assert_eq!(
        Indexed::<bool>::parse(&mut cursor),
        Err(Error::BadResponse(ADUParseError::UnknownCoilState(0xFF01)))
    );
    let mut cursor = ReadCursor::new(&[0x00, 0x05, 0xFF, 0x01]);
    assert_eq!(
        Indexed::<u16>::parse(&mut cursor),
        Ok(Indexed::new(5, 0xFF01))
    );
    let mut cursor = ReadCursor::new(&[0x00]);
    assert_eq!(
        Indexed::<u16>::parse(&mut cursor),
        Err(Error::BadResponse(ADUParseError::InsufficientBytes))
    );
}

#[test]
fn server_rejects_malformed_requests() {
    assert!(matches!(
        ServerRequest::parse_pdu(&[]),
        Err(Error::BadResponse(ADUParseError::InsufficientBytes))
    ));
    assert!(matches!(
        ServerRequest::parse_pdu(&[0x07, 0, 0, 0, 1]),
        Err(Error::Exception(ExceptionCode::IllegalFunction))
    ));
    assert!(matches!(
        ServerRequest::parse_pdu(&[0x01, 0x00, 0x00, 0x07, 0xD1]),
        Err(Error::BadRequest(InvalidRequest::CountTooBigForType(
            2001, 2000
        )))
    ));
    assert!(matches!(
        ServerRequest::parse_pdu(&[0x03, 0x00, 0x00, 0x00, 0x00]),
        Err(Error::BadRequest(InvalidRequest::BadRange(
            InvalidRange::CountOfZero
        )))
    ));
    assert!(matches!(
        ServerRequest::parse_pdu(&[0x03, 0x00, 0x00, 0x00]),
        Err(Error::BadResponse(ADUParseError::InsufficientBytes))
    ));
    assert!(matches!(
        ServerRequest::parse_pdu(&[0x05, 0x00, 0x00, 0x12, 0x34]),
        Err(Error::BadResponse(ADUParseError::UnknownCoilState(0x1234)))
    ));
    assert!(matches!(
        ServerRequest::parse_pdu(&[0x0F, 0x00, 0x00, 0x00, 0x09, 0x01, 0xFF]),
        Err(Error::BadResponse(ADUParseError::RequestByteCountMismatch(
            2, 1
        )))
    ));
    assert!(matches!(
        ServerRequest::parse_pdu(&[0x0F, 0x00, 0x00, 0x00, 0x09, 0x02, 0xFF]),
        Err(Error::BadResponse(ADUParseError::InsufficientBytes))
    ));
    assert!(matches!(
        ServerRequest::parse_pdu(&[0x10, 0x00, 0x00, 0x00, 0x02, 0x03, 0, 1, 0]),
        Err(Error::BadResponse(ADUParseError::RequestByteCountMismatch(
            4, 3
        )))
    ));
    assert!(matches!(
        ServerRequest::parse_pdu(&[0x10, 0x00, 0x00, 0x00, 0x7C, 0xF8]),
        Err(Error::BadRequest(InvalidRequest::CountTooBigForType(
            124, 123
        )))
    ));
    let mut cursor = ReadCursor::new(&[0x00, 0x01, 0x00, 0x02]);
    assert!(matches!(
        ServerRequest::parse(FunctionCode::ReadInputRegisters, &mut cursor),
        Ok(ServerRequest::ReadInputRegisters(AddressRange {
            start: 1,
            count: 2
        }))
    ));
}

#[test]
fn errors_convert_to_the_common_error() {
    assert_eq!(
        Error::from(InvalidRequest::CountTooBigForU16(70000)),
        Error::BadRequest(InvalidRequest::CountTooBigForU16(70000))
    );
    assert_eq!(
        Error::from(ADUParseError::FrameOverflow),
        Error::BadResponse(ADUParseError::FrameOverflow)
    );
    assert_eq!(
        Error::from(InternalError::BadBitIteratorArgs),
        Error::Internal(InternalError::BadBitIteratorArgs)
    );
    assert_eq!(
        Error::from(ExceptionCode::Acknowledge),
        Error::Exception(ExceptionCode::Acknowledge)
    );
    assert_eq!(
        InvalidRequest::from(InvalidRange::CountOfZero),
        InvalidRequest::BadRange(InvalidRange::CountOfZero)
    );
}
