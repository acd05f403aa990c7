use rodbus::client::message::{Request, Response};
use rodbus::error::details::{ADUParseError, ExceptionCode};
use rodbus::error::Error;
use rodbus::server::handler::ServerHandler;
use rodbus::server::request::ServerRequest;
use rodbus::server::response::Reply;
use rodbus::serial::frame::format_rtu;
use rodbus::server::task::{call_handler, process, process_mbap, process_rtu, RtuServed, Served};
use rodbus::types::{AddressRange, Indexed, UnitId, WriteCoils, WriteMultiple, WriteRegisters};

struct Device {
    coils: Vec<bool>,
    registers: Vec<u16>,
    calls: usize,
    last_unit: Option<UnitId>,
    short_reads: bool,
}

impl Device {
    fn new() -> Self {
        Device {
            coils: vec![false; 32],
            registers: (0..32).map(|i| 0x100 + i as u16).collect(),
            calls: 0,
            last_unit: None,
            short_reads: false,
        }
    }

    fn seen(&mut self, unit: UnitId) {
        self.calls += 1;
        self.last_unit = Some(unit);
    }
}

impl ServerHandler for Device {
    fn read_coils(&mut self, range: AddressRange, unit: UnitId) -> Result<Vec<bool>, ExceptionCode> {
        self.seen(unit);
        match self.coils.get(range.to_std_range()) {
            Some(values) if self.short_reads => Ok(values[1..].to_vec()),
            Some(values) => Ok(values.to_vec()),
            None => Err(ExceptionCode::IllegalDataAddress),
        }
    }

    fn read_discrete_inputs(
        &mut self,
        range: AddressRange,
        unit: UnitId,
    ) -> Result<Vec<bool>, ExceptionCode> {
        self.seen(unit);
        Ok(vec![true; range.count as usize])
    }

    fn read_holding_registers(
        &mut self,
        range: AddressRange,
        unit: UnitId,
    ) -> Result<Vec<u16>, ExceptionCode> {
        self.seen(unit);
        match self.registers.get(range.to_std_range()) {
            Some(values) => Ok(values.to_vec()),
            None => Err(ExceptionCode::IllegalDataAddress),
        }
    }

    fn read_input_registers(
        &mut self,
        _range: AddressRange,
        unit: UnitId,
    ) -> Result<Vec<u16>, ExceptionCode> {
        self.seen(unit);
        Err(ExceptionCode::IllegalFunction)
    }

    fn write_single_coil(&mut self, value: Indexed<bool>, unit: UnitId) -> Result<(), ExceptionCode> {
        self.seen(unit);
        match self.coils.get_mut(value.index as usize) {
            Some(coil) => {
                *coil = value.value;
                Ok(())
            }
            None => Err(ExceptionCode::IllegalDataAddress),
        }
    }

    fn write_single_register(
        &mut self,
        value: Indexed<u16>,
        unit: UnitId,
    ) -> Result<(), ExceptionCode> {
        self.seen(unit);
        match self.registers.get_mut(value.index as usize) {
            Some(register) => {
                *register = value.value;
                Ok(())
            }
            None => Err(ExceptionCode::IllegalDataAddress),
        }
    }

    fn write_multiple_coils<'a>(
        &mut self,
        values: WriteCoils<'a>,
        unit: UnitId,
    ) -> Result<(), ExceptionCode> {
        self.seen(unit);
        match self.coils.get_mut(values.range.to_std_range()) {
            Some(coils) => {
                coils.copy_from_slice(&values.iterator.collect());
                Ok(())
            }
            None => Err(ExceptionCode::IllegalDataAddress),
        }
    }

    fn write_multiple_registers<'a>(
        &mut self,
        values: WriteRegisters<'a>,
        unit: UnitId,
    ) -> Result<(), ExceptionCode> {
        self.seen(unit);
        match self.registers.get_mut(values.range.to_std_range()) {
            Some(registers) => {
                registers.copy_from_slice(&values.iterator.collect());
                Ok(())
            }
            None => Err(ExceptionCode::IllegalDataAddress),
        }
    }
}

fn range(start: u16, count: u16) -> AddressRange {
    AddressRange::try_from(start, count).unwrap()
}

fn exchange(device: &mut Device, request: &Request) -> Result<Response, Error> {
    let pdu = request.to_pdu().unwrap();
    let reply = process(device, UnitId::new(9), &pdu).unwrap();
    request.parse_response(&reply)
}

#[test]
fn server_serves_writes_and_reads() {
    let mut device = Device::new();
    assert_eq!(
        exchange(
            &mut device,
            &Request::WriteMultipleCoils(WriteMultiple::new(4, vec![true, false, true]))
        ),
        Ok(Response::WriteMultipleCoils(range(4, 3)))
    );
    assert_eq!(device.last_unit, Some(UnitId::new(9)));
    assert_eq!(
        exchange(&mut device, &Request::WriteSingleCoil(Indexed::new(8, true))),
        Ok(Response::WriteSingleCoil(Indexed::new(8, true)))
    );
    assert_eq!(
        exchange(&mut device, &Request::ReadCoils(range(3, 6))),
        Ok(Response::ReadCoils(vec![
            Indexed::new(3, false),
            Indexed::new(4, true),
            Indexed::new(5, false),
            Indexed::new(6, true),
            Indexed::new(7, false),
            Indexed::new(8, true),
        ]))
    );
    assert_eq!(
        exchange(
            &mut device,
            &Request::WriteMultipleRegisters(WriteMultiple::new(10, vec![0xAAAA, 0xBBBB]))
        ),
        Ok(Response::WriteMultipleRegisters(range(10, 2)))
    );
    assert_eq!(
        exchange(
            &mut device,
            &Request::WriteSingleRegister(Indexed::new(12, 0xCCCC))
        ),
        Ok(Response::WriteSingleRegister(Indexed::new(12, 0xCCCC)))
    );
    assert_eq!(
        exchange(&mut device, &Request::ReadHoldingRegisters(range(9, 4))),
        Ok(Response::ReadHoldingRegisters(vec![
            Indexed::new(9, 0x109),
            Indexed::new(10, 0xAAAA),
            Indexed::new(11, 0xBBBB),
            Indexed::new(12, 0xCCCC),
        ]))
    );
    assert_eq!(
        exchange(&mut device, &Request::ReadDiscreteInputs(range(100, 2))),
        Ok(Response::ReadDiscreteInputs(vec![
            Indexed::new(100, true),
            Indexed::new(101, true)
        ]))
    );
    assert_eq!(device.calls, 7);
}

#[test]
fn server_reports_what_the_handler_refuses() {
    let mut device = Device::new();
    assert_eq!(
        exchange(&mut device, &Request::ReadHoldingRegisters(range(30, 3))),
        Err(Error::Exception(ExceptionCode::IllegalDataAddress))
    );
    assert_eq!(
        exchange(&mut device, &Request::ReadInputRegisters(range(0, 1))),
        Err(Error::Exception(ExceptionCode::IllegalFunction))
    );
    assert_eq!(
        process(&mut device, UnitId::default(), &[0x03, 0x00, 0x1E, 0x00, 0x03]),
        Some(vec![0x83, 0x02])
    );
}

#[test]
fn server_reports_a_read_of_the_wrong_length() {
    let mut device = Device::new();
    device.short_reads = true;
    assert_eq!(
        process(&mut device, UnitId::default(), &[0x01, 0x00, 0x00, 0x00, 0x03]),
        Some(vec![0x81, 0x03])
    );
    assert_eq!(device.calls, 1);
}

#[test]
fn server_answers_what_does_not_decode_without_the_handler() {
    let mut device = Device::new();
    assert_eq!(process(&mut device, UnitId::default(), &[]), None);
    assert_eq!(
        process(&mut device, UnitId::default(), &[0x2B, 0x0E, 0x01, 0x00]),
        Some(vec![0xAB, 0x01])
    );
    assert_eq!(
        process(&mut device, UnitId::default(), &[0x01, 0x00, 0x00, 0x0B, 0xB8]),
        Some(vec![0x81, 0x03])
    );
    assert_eq!(
        process(&mut device, UnitId::default(), &[0x01, 0x00, 0x00, 0x00, 0x00]),
        Some(vec![0x81, 0x03])
    );
    assert_eq!(
        process(&mut device, UnitId::default(), &[0x01, 0xFF, 0xFF, 0x00, 0x02]),
        Some(vec![0x81, 0x03])
    );
    assert_eq!(
        process(&mut device, UnitId::default(), &[0x05, 0x00, 0x01, 0x00, 0x01]),
        Some(vec![0x85, 0x03])
    );
    assert_eq!(
        process(&mut device, UnitId::default(), &[0x10, 0x00, 0x01]),
        Some(vec![0x90, 0x03])
    );
    assert_eq!(
        process(&mut device, UnitId::default(), &[0x0F, 0x00, 0x00, 0x00, 0x09, 0x01, 0xFF]),
        Some(vec![0x8F, 0x03])
    );
    assert_eq!(device.calls, 0);
}

#[test]
fn handler_answers_are_gathered_by_kind() {
    let mut device = Device::new();
    let pdu = [0x03, 0x00, 0x00, 0x00, 0x02];
    let request = ServerRequest::parse_pdu(&pdu).unwrap();
    assert_eq!(
        call_handler(&mut device, UnitId::new(1), request),
        Reply::Registers(vec![0x100, 0x101])
    );
    let pdu = [0x06, 0x00, 0x40, 0x00, 0x02];
    let request = ServerRequest::parse_pdu(&pdu).unwrap();
    assert_eq!(
        call_handler(&mut device, UnitId::new(1), request),
        Reply::Exception(ExceptionCode::IllegalDataAddress)
    );
    let pdu = [0x06, 0x00, 0x04, 0x00, 0x02];
    let request = ServerRequest::parse_pdu(&pdu).unwrap();
    assert_eq!(call_handler(&mut device, UnitId::new(1), request), Reply::Written);
    assert_eq!(device.registers[4], 2);
}

#[test]
fn server_serves_frames() {
    let mut device = Device::new();
    // a read of two holding registers from address 1, under transaction 0x0102
    let frame = [
        0x01, 0x02, 0x00, 0x00, 0x00, 0x06, 0x11, 0x03, 0x00, 0x01, 0x00, 0x02,
    ];
    for cut in 0..frame.len() {
        assert_eq!(process_mbap(&mut device, &frame[..cut]), Ok(None));
    }
    assert_eq!(device.calls, 0);
    assert_eq!(
        process_mbap(&mut device, &frame),
        Ok(Some(Served {
            reply: Some(vec![
                0x01, 0x02, 0x00, 0x00, 0x00, 0x07, 0x11, 0x03, 0x04, 0x01, 0x01, 0x01, 0x02
            ]),
            consumed: 12
        }))
    );
    assert_eq!(device.last_unit, Some(UnitId::new(0x11)));
    // an unknown function, with more bytes behind the frame
    let frame = [0x00, 0x09, 0x00, 0x00, 0x00, 0x02, 0x01, 0x2B, 0xAA, 0xBB];
    assert_eq!(
        process_mbap(&mut device, &frame),
        Ok(Some(Served {
            reply: Some(vec![0x00, 0x09, 0x00, 0x00, 0x00, 0x03, 0x01, 0xAB, 0x01]),
            consumed: 8
        }))
    );
    // a frame without a protocol data unit gets no reply
    assert_eq!(
        process_mbap(&mut device, &[0x00, 0x09, 0x00, 0x00, 0x00, 0x01, 0x01]),
        Ok(Some(Served {
            reply: None,
            consumed: 7
        }))
    );
    assert_eq!(
        process_mbap(&mut device, &[0x00, 0x09, 0x00, 0x07, 0x00, 0x01, 0x01]),
        Err(ADUParseError::UnknownProtocolId(7))
    );
    assert_eq!(device.calls, 1);
}

#[test]
fn server_serves_serial_frames() {
    let mut device = Device::new();
    let request = format_rtu(UnitId::new(7), &[0x03, 0x00, 0x01, 0x00, 0x02]).unwrap();
    for cut in 0..request.len() {
        assert_eq!(process_rtu(&mut device, &request[..cut]), Ok(RtuServed::NeedMore));
    }
    let reply = format_rtu(UnitId::new(7), &[0x03, 0x04, 0x01, 0x01, 0x01, 0x02]).unwrap();
    assert_eq!(
        process_rtu(&mut device, &request),
        Ok(RtuServed::Served(Served {
            reply: Some(reply),
            consumed: 8
        }))
    );
    assert_eq!(device.last_unit, Some(UnitId::new(7)));
    let mut corrupted = request.clone();
    corrupted[3] ^= 0x10;
    assert_eq!(process_rtu(&mut device, &corrupted), Ok(RtuServed::Resync));
    assert_eq!(
        process_rtu(&mut device, &[0x07, 0x2B, 0x00]),
        Err(ADUParseError::UnknownResponseFunction(0x2B))
    );
    // a request that names too many registers is answered without the handler
    let request = format_rtu(UnitId::new(7), &[0x03, 0x00, 0x01, 0x00, 0x7E]).unwrap();
    let reply = format_rtu(UnitId::new(7), &[0x83, 0x03]).unwrap();
    assert_eq!(
        process_rtu(&mut device, &request),
        Ok(RtuServed::Served(Served {
            reply: Some(reply),
            consumed: 8
        }))
    );
    assert_eq!(device.calls, 1);
}

#[test]
fn answers_of_a_handler_become_replies() {
    assert_eq!(
        Reply::from_bits(Ok(vec![true, false])),
        Reply::Bits(vec![true, false])
    );
    assert_eq!(Reply::from_bits(Ok(vec![])), Reply::Bits(vec![]));
    assert_eq!(
        Reply::from_bits(Err(ExceptionCode::IllegalDataAddress)),
        Reply::Exception(ExceptionCode::IllegalDataAddress)
    );
    assert_eq!(
        Reply::from_registers(Ok(vec![0x1234, 0xFFFF])),
        Reply::Registers(vec![0x1234, 0xFFFF])
    );
    assert_eq!(
        Reply::from_registers(Err(ExceptionCode::Unknown(0x55))),
        Reply::Exception(ExceptionCode::Unknown(0x55))
    );
    assert_eq!(Reply::from_write(Ok(())), Reply::Written);
    assert_eq!(
        Reply::from_write(Err(ExceptionCode::ServerDeviceBusy)),
        Reply::Exception(ExceptionCode::ServerDeviceBusy)
    );
}

struct Recorder {
    seen: Vec<(u8, u16, u16, u8)>,
}

impl Recorder {
    fn note(&mut self, function: u8, range: AddressRange, unit: UnitId) {
        self.seen.push((function, range.start, range.count, unit.value));
    }
}

impl ServerHandler for Recorder {
    fn read_coils(&mut self, range: AddressRange, unit: UnitId) -> Result<Vec<bool>, ExceptionCode> {
        self.note(1, range, unit);
        Ok(vec![true; range.count as usize])
    }

    fn read_discrete_inputs(
        &mut self,
        range: AddressRange,
        unit: UnitId,
    ) -> Result<Vec<bool>, ExceptionCode> {
        self.note(2, range, unit);
        Ok(vec![false; range.count as usize])
    }

    fn read_holding_registers(
        &mut self,
        range: AddressRange,
        unit: UnitId,
    ) -> Result<Vec<u16>, ExceptionCode> {
        self.note(3, range, unit);
        Ok(vec![3; range.count as usize])
    }

    fn read_input_registers(
        &mut self,
        range: AddressRange,
        unit: UnitId,
    ) -> Result<Vec<u16>, ExceptionCode> {
        self.note(4, range, unit);
        Ok(vec![4; range.count as usize])
    }

    fn write_single_coil(&mut self, value: Indexed<bool>, unit: UnitId) -> Result<(), ExceptionCode> {
        self.seen.push((5, value.index, value.value as u16, unit.value));
        Ok(())
    }

    fn write_single_register(
        &mut self,
        value: Indexed<u16>,
        unit: UnitId,
    ) -> Result<(), ExceptionCode> {
        self.seen.push((6, value.index, value.value, unit.value));
        Ok(())
    }

    fn write_multiple_coils<'a>(
        &mut self,
        values: WriteCoils<'a>,
        unit: UnitId,
    ) -> Result<(), ExceptionCode> {
        assert_eq!(values.iterator.collect().len(), values.range.count as usize);
        self.note(15, values.range, unit);
        Ok(())
    }

    fn write_multiple_registers<'a>(
        &mut self,
        values: WriteRegisters<'a>,
        unit: UnitId,
    ) -> Result<(), ExceptionCode> {
        assert_eq!(values.iterator.collect().len(), values.range.count as usize);
        self.note(16, values.range, unit);
        Ok(())
    }
}

#[test]
fn each_request_goes_to_its_method_with_its_range_and_unit() {
    let mut recorder = Recorder { seen: Vec::new() };
    let requests = vec![
        Request::ReadCoils(range(1, 2)),
        Request::ReadDiscreteInputs(range(3, 4)),
        Request::ReadHoldingRegisters(range(5, 6)),
        Request::ReadInputRegisters(range(7, 8)),
        Request::WriteSingleCoil(Indexed::new(9, true)),
        Request::WriteSingleRegister(Indexed::new(10, 11)),
        Request::WriteMultipleCoils(WriteMultiple::new(12, vec![true; 13])),
        Request::WriteMultipleRegisters(WriteMultiple::new(14, vec![0; 15])),
    ];
    for (i, request) in requests.iter().enumerate() {
        let pdu = request.to_pdu().unwrap();
        let reply = process(&mut recorder, UnitId::new(40 + i as u8), &pdu).unwrap();
        assert!(request.parse_response(&reply).is_ok());
    }
    assert_eq!(
        recorder.seen,
        vec![
            (1, 1, 2, 40),
            (2, 3, 4, 41),
            (3, 5, 6, 42),
            (4, 7, 8, 43),
            (5, 9, 1, 44),
            (6, 10, 11, 45),
            (15, 12, 13, 46),
            (16, 14, 15, 47),
        ]
    );
}
