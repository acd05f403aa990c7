use std::cell::Cell;
use std::rc::Rc;

use rodbus::client::channel::{
    decode_reply, Action, ChannelState, ChannelTask, ClientState, Event, Step,
};
use rodbus::client::message::{Request, Response};
use rodbus::client::retry::{DoublingRetryStrategy, RetryStrategy};
use rodbus::common::frame::FrameHeader;
use rodbus::error::details::{ADUParseError, ExceptionCode, InternalError, InvalidRequest};
use rodbus::error::{Error, IoReason};
use rodbus::tcp::frame::format_mbap;
use rodbus::types::{AddressRange, Indexed, UnitId, WriteMultiple};

fn range(start: u16, count: u16) -> AddressRange {
    AddressRange::try_from(start, count).unwrap()
}

fn connected(seed: u16) -> ChannelTask<DoublingRetryStrategy> {
    let mut task = ChannelTask::new(DoublingRetryStrategy::new(100, 1000), seed);
    assert_eq!(task.state(), ClientState::Disabled);
    assert_eq!(
        task.step(Event::Start),
        Step {
            outcome: None,
            notify: Some(ClientState::Connecting),
            next: Action::Connect
        }
    );
    assert_eq!(
        task.step(Event::ConnectSucceeded),
        Step {
            outcome: None,
            notify: Some(ClientState::Connected),
            next: Action::AwaitRequest
        }
    );
    assert_eq!(task.state(), ClientState::Connected);
    task
}

#[test]
fn doubling_retry_strategy_doubles_up_to_its_maximum() {
    let mut retry = DoublingRetryStrategy::new(100, 1000);
    assert_eq!(retry.next_delay(), 100);
    assert_eq!(retry.next_delay(), 200);
    assert_eq!(retry.next_delay(), 400);
    assert_eq!(retry.next_delay(), 800);
    assert_eq!(retry.next_delay(), 1000);
    assert_eq!(retry.next_delay(), 1000);
    retry.reset();
    assert_eq!(retry.next_delay(), 100);
    assert_eq!(retry.next_delay(), 200);
    let mut wide = DoublingRetryStrategy::new(u64::MAX / 2 + 1, u64::MAX);
    assert_eq!(wide.next_delay(), u64::MAX / 2 + 1);
    assert_eq!(wide.next_delay(), u64::MAX);
    let mut fixed = DoublingRetryStrategy::new(0, 50);
    assert_eq!(fixed.next_delay(), 0);
    assert_eq!(fixed.next_delay(), 0);
}

#[test]
fn read_coils_of_three_starting_at_zero() {
    let mut task = connected(1);
    let step = task.step(Event::Request(
        Request::ReadCoils(range(0, 3)),
        UnitId::default(),
    ));
    assert_eq!(
        step,
        Step {
            outcome: None,
            notify: None,
            next: Action::WriteAndAwait(vec![
                0x00, 0x01, 0x00, 0x00, 0x00, 0x06, 0xFF, 0x01, 0x00, 0x00, 0x00, 0x03
            ])
        }
    );
    assert!(task.is_busy());
    let step = task.step(Event::Frame(vec![
        0x00, 0x01, 0x00, 0x00, 0x00, 0x04, 0xFF, 0x01, 0x01, 0x05,
    ]));
    assert_eq!(
        step,
        Step {
            outcome: Some(Ok(Response::ReadCoils(vec![
                Indexed::new(0, true),
                Indexed::new(1, false),
                Indexed::new(2, true)
            ]))),
            notify: None,
            next: Action::AwaitRequest
        }
    );
    assert!(!task.is_busy());
    assert_eq!(task.state(), ClientState::Connected);
}

#[test]
fn read_holding_registers_of_two_starting_at_one() {
    let mut task = connected(0x0102);
    let step = task.step(Event::Request(
        Request::ReadHoldingRegisters(range(1, 2)),
        UnitId::new(0x11),
    ));
    assert_eq!(
        step.next,
        Action::WriteAndAwait(vec![
            0x01, 0x02, 0x00, 0x00, 0x00, 0x06, 0x11, 0x03, 0x00, 0x01, 0x00, 0x02
        ])
    );
    let step = task.step(Event::Frame(vec![
        0x01, 0x02, 0x00, 0x00, 0x00, 0x07, 0x11, 0x03, 0x04, 0xFF, 0xFF, 0x01, 0xCC,
    ]));
    assert_eq!(
        step.outcome,
        Some(Ok(Response::ReadHoldingRegisters(vec![
            Indexed::new(1, 0xFFFF),
            Indexed::new(2, 0x01CC)
        ])))
    );
}

#[test]
fn exception_keeps_the_connection() {
    let mut task = connected(7);
    task.step(Event::Request(
        Request::ReadHoldingRegisters(range(1, 2)),
        UnitId::default(),
    ));
    let step = task.step(Event::Frame(vec![
        0x00, 0x07, 0x00, 0x00, 0x00, 0x03, 0xFF, 0x83, 0x02,
    ]));
    assert_eq!(
        step,
        Step {
            outcome: Some(Err(Error::Exception(ExceptionCode::IllegalDataAddress))),
            notify: None,
            next: Action::AwaitRequest
        }
    );
    assert_eq!(task.state(), ClientState::Connected);
    assert!(!task.is_busy());
}

#[test]
fn timeout_gives_up_the_connection_and_reconnects() {
    let mut task = connected(7);
    task.step(Event::Request(
        Request::ReadCoils(range(0, 1)),
        UnitId::default(),
    ));
    let step = task.step(Event::ResponseTimeout);
    assert_eq!(
        step,
        Step {
            outcome: Some(Err(Error::ResponseTimeout)),
            notify: Some(ClientState::WaitAfterDisconnect(100)),
            next: Action::Sleep(100)
        }
    );
    assert_eq!(task.state(), ClientState::WaitAfterDisconnect(100));
    assert!(!task.is_busy());
    assert_eq!(
        task.step(Event::DelayElapsed),
        Step {
            outcome: None,
            notify: Some(ClientState::Connecting),
            next: Action::Connect
        }
    );
    assert_eq!(
        task.step(Event::ConnectSucceeded).notify,
        Some(ClientState::Connected)
    );
}

#[test]
fn preflight_rejection_touches_no_transport() {
    let mut task = connected(7);
    let step = task.step(Event::Request(
        Request::ReadCoils(range(0, 3000)),
        UnitId::default(),
    ));
    assert_eq!(
        step,
        Step {
            outcome: Some(Err(Error::BadRequest(
                InvalidRequest::CountTooBigForType(3000, 2000)
            ))),
            notify: None,
            next: Action::AwaitRequest
        }
    );
    assert!(!task.is_busy());
    // the transaction was not used up
    let step = task.step(Event::Request(
        Request::ReadCoils(range(0, 1)),
        UnitId::default(),
    ));
    match step.next {
        Action::WriteAndAwait(frame) => assert_eq!(&frame[..2], &[0x00, 0x07]),
        other => panic!("no write: {:?}", other),
    }
}

#[test]
fn failed_connects_back_off_and_a_connect_resets_the_series() {
    let mut task = ChannelTask::new(DoublingRetryStrategy::new(100, 350), 0);
    task.step(Event::Start);
    for delay in [100u64, 200, 350, 350] {
        assert_eq!(
            task.step(Event::ConnectFailed),
            Step {
                outcome: None,
                notify: Some(ClientState::WaitAfterFailedConnect(delay)),
                next: Action::Sleep(delay)
            }
        );
        assert_eq!(task.state(), ClientState::WaitAfterFailedConnect(delay));
        assert_eq!(task.step(Event::DelayElapsed).next, Action::Connect);
    }
    task.step(Event::ConnectSucceeded);
    assert_eq!(
        task.step(Event::TransportFailed(IoReason::ConnectionReset)),
        Step {
            outcome: None,
            notify: Some(ClientState::WaitAfterDisconnect(100)),
            next: Action::Sleep(100)
        }
    );
}

#[test]
fn bad_frames_give_up_the_connection() {
    let header = FrameHeader::new(UnitId::default(), 9);
    let cases: Vec<(Vec<u8>, Error)> = vec![
        (
            format_mbap(header, &[0x01, 0x01, 0x05]).unwrap(),
            Error::BadResponse(ADUParseError::BadTransactionId),
        ),
        (
            vec![0x00, 0x07, 0x00, 0x01, 0x00, 0x04, 0xFF, 0x01, 0x01, 0x05],
            Error::BadResponse(ADUParseError::UnknownProtocolId(1)),
        ),
        (
            vec![0x00, 0x07, 0x00, 0x00, 0x01, 0x00, 0xFF, 0x01, 0x01, 0x05],
            Error::BadResponse(ADUParseError::FrameOverflow),
        ),
        (
            vec![0x00, 0x07, 0x00, 0x00, 0x00, 0x04, 0xFF, 0x01, 0x01],
            Error::BadResponse(ADUParseError::InsufficientBytes),
        ),
        (
            vec![0x00, 0x07, 0x00, 0x00, 0x00, 0x04, 0xFF, 0x01, 0x02, 0x05],
            Error::BadResponse(ADUParseError::RequestByteCountMismatch(1, 2)),
        ),
        (
            vec![0x00, 0x07, 0x00, 0x00, 0x00, 0x04, 0xFF, 0x02, 0x01, 0x05],
            Error::BadResponse(ADUParseError::UnknownResponseFunction(2)),
        ),
    ];
    for (frame, expected) in cases {
        let mut task = connected(7);
        task.step(Event::Request(
            Request::ReadCoils(range(0, 3)),
            UnitId::default(),
        ));
        assert_eq!(
            decode_reply(&Request::ReadCoils(range(0, 3)), 7, &frame),
            Err(expected)
        );
        let step = task.step(Event::Frame(frame));
        assert_eq!(
            step,
            Step {
                outcome: Some(Err(expected)),
                notify: Some(ClientState::WaitAfterDisconnect(100)),
                next: Action::Sleep(100)
            }
        );
        assert!(!task.is_busy());
    }
}

#[test]
fn transport_failure_ends_the_request_in_flight() {
    let mut task = connected(7);
    task.step(Event::Request(
        Request::WriteSingleCoil(Indexed::new(5, true)),
        UnitId::default(),
    ));
    assert_eq!(
        task.step(Event::TransportFailed(IoReason::BrokenPipe)),
        Step {
            outcome: Some(Err(Error::Transport(IoReason::BrokenPipe))),
            notify: Some(ClientState::WaitAfterDisconnect(100)),
            next: Action::Sleep(100)
        }
    );
}

#[test]
fn shutdown_ends_every_state() {
    let mut task = ChannelTask::new(DoublingRetryStrategy::new(1, 2), 0);
    assert_eq!(
        task.step(Event::Shutdown),
        Step {
            outcome: None,
            notify: Some(ClientState::Shutdown),
            next: Action::Stop
        }
    );
    assert_eq!(
        task.step(Event::Start),
        Step {
            outcome: None,
            notify: None,
            next: Action::Stop
        }
    );
    assert_eq!(
        task.step(Event::Request(
            Request::ReadCoils(range(0, 1)),
            UnitId::default()
        )),
        Step {
            outcome: Some(Err(Error::Shutdown)),
            notify: None,
            next: Action::Stop
        }
    );
    let mut task = connected(0);
    task.step(Event::Request(
        Request::ReadCoils(range(0, 1)),
        UnitId::default(),
    ));
    assert_eq!(
        task.step(Event::Shutdown),
        Step {
            outcome: Some(Err(Error::Shutdown)),
            notify: Some(ClientState::Shutdown),
            next: Action::Stop
        }
    );
    assert_eq!(task.state(), ClientState::Shutdown);
    let mut task = connected(0);
    task.step(Event::TransportFailed(IoReason::Other));
    assert_eq!(task.step(Event::Shutdown).next, Action::Stop);
}

#[test]
fn no_second_request_is_written_while_one_is_in_flight() {
    let mut task = connected(0);
    let first = task.step(Event::Request(
        Request::ReadCoils(range(0, 1)),
        UnitId::default(),
    ));
    assert!(matches!(first.next, Action::WriteAndAwait(_)));
    for _ in 0..3 {
        let step = task.step(Event::Request(
            Request::ReadCoils(range(5, 1)),
            UnitId::default(),
        ));
        assert_eq!(
            step,
            Step {
                outcome: Some(Err(Error::Internal(InternalError::UnexpectedEvent))),
                notify: None,
                next: Action::AwaitResponse
            }
        );
        assert!(task.is_busy());
    }
    for event in [Event::Start, Event::ConnectSucceeded, Event::DelayElapsed] {
        assert_eq!(
            task.step(event),
            Step {
                outcome: None,
                notify: None,
                next: Action::AwaitResponse
            }
        );
    }
    // the answer still belongs to the first request
    let step = task.step(Event::Frame(vec![0, 0, 0, 0, 0, 4, 0xFF, 0x01, 0x01, 0x01]));
    assert_eq!(
        step.outcome,
        Some(Ok(Response::ReadCoils(vec![Indexed::new(0, true)])))
    );
    let second = task.step(Event::Request(
        Request::ReadCoils(range(5, 1)),
        UnitId::default(),
    ));
    assert!(matches!(second.next, Action::WriteAndAwait(_)));
}

#[test]
fn requests_are_written_in_the_order_received() {
    let mut task = connected(0xFFFE);
    let requests = vec![
        Request::ReadCoils(range(0, 3)),
        Request::WriteSingleRegister(Indexed::new(1, 2)),
        Request::WriteMultipleCoils(WriteMultiple::new(3, vec![true, true])),
        Request::ReadInputRegisters(range(9, 1)),
    ];
    let mut tx: u16 = 0xFFFE;
    for request in requests {
        let expected = format_mbap(
            FrameHeader::new(UnitId::new(3), tx),
            &request.to_pdu().unwrap(),
        )
        .unwrap();
        let step = task.step(Event::Request(request.clone(), UnitId::new(3)));
        assert_eq!(step.next, Action::WriteAndAwait(expected));
        let reply = format_mbap(
            FrameHeader::new(UnitId::new(3), tx),
            &[request.function().get_value() | 0x80, 0x04],
        )
        .unwrap();
        let step = task.step(Event::Frame(reply));
        assert_eq!(
            step.outcome,
            Some(Err(Error::Exception(ExceptionCode::ServerDeviceFailure)))
        );
        assert_eq!(step.next, Action::AwaitRequest);
        tx = tx.wrapping_add(1);
    }
    assert_eq!(tx, 0x0002);
}

#[test]
fn events_out_of_turn_change_nothing() {
    let mut task = ChannelTask::new(DoublingRetryStrategy::new(10, 20), 0);
    assert_eq!(task.step(Event::ConnectSucceeded).next, Action::AwaitStart);
    assert_eq!(task.state(), ClientState::Disabled);
    assert_eq!(
        task.step(Event::Request(
            Request::ReadCoils(range(0, 1)),
            UnitId::default()
        )),
        Step {
            outcome: Some(Err(Error::Internal(InternalError::UnexpectedEvent))),
            notify: None,
            next: Action::AwaitStart
        }
    );
    task.step(Event::Start);
    assert_eq!(task.step(Event::DelayElapsed).next, Action::Connect);
    assert_eq!(task.step(Event::ResponseTimeout).next, Action::Connect);
    task.step(Event::ConnectFailed);
    assert_eq!(task.step(Event::ConnectSucceeded).next, Action::Sleep(10));
    assert_eq!(task.state(), ClientState::WaitAfterFailedConnect(10));
    let mut task = connected(0);
    assert_eq!(task.step(Event::Frame(vec![1, 2, 3])).next, Action::AwaitRequest);
    assert_eq!(task.step(Event::ResponseTimeout).next, Action::AwaitRequest);
    assert_eq!(task.state(), ClientState::Connected);
}

#[test]
fn state_machine_waits_as_long_as_it_is_told() {
    let mut machine = ChannelState::new(5);
    assert_eq!(machine.state(), ClientState::Disabled);
    assert_eq!(machine.step_with(Event::Start, 1).next, Action::Connect);
    assert_eq!(
        machine.step_with(Event::ConnectFailed, 250),
        Step {
            outcome: None,
            notify: Some(ClientState::WaitAfterFailedConnect(250)),
            next: Action::Sleep(250)
        }
    );
    // a request out of turn is refused, and the wait goes on
    assert_eq!(
        machine.step_with(
            Event::Request(Request::ReadCoils(range(0, 1)), UnitId::default()),
            9
        ),
        Step {
            outcome: Some(Err(Error::Internal(InternalError::UnexpectedEvent))),
            notify: None,
            next: Action::Sleep(250)
        }
    );
    // where no wait follows, the delay decides nothing
    assert_eq!(
        machine.step_with(Event::DelayElapsed, 999),
        Step {
            outcome: None,
            notify: Some(ClientState::Connecting),
            next: Action::Connect
        }
    );
    assert_eq!(
        machine.step_with(Event::ConnectSucceeded, 999),
        Step {
            outcome: None,
            notify: Some(ClientState::Connected),
            next: Action::AwaitRequest
        }
    );
    let step = machine.step_with(
        Event::Request(Request::ReadCoils(range(0, 1)), UnitId::new(2)),
        999,
    );
    assert_eq!(
        step.next,
        Action::WriteAndAwait(vec![0, 5, 0, 0, 0, 6, 2, 1, 0, 0, 0, 1])
    );
    assert!(machine.is_busy());
    assert_eq!(
        machine.step_with(Event::ResponseTimeout, 777),
        Step {
            outcome: Some(Err(Error::ResponseTimeout)),
            notify: Some(ClientState::WaitAfterDisconnect(777)),
            next: Action::Sleep(777)
        }
    );
    assert_eq!(machine.state(), ClientState::WaitAfterDisconnect(777));
    assert!(!machine.is_busy());
}

#[test]
fn state_machine_keeps_the_connection_after_a_response() {
    let mut machine = ChannelState::new(0xFFFF);
    machine.step_with(Event::Start, 0);
    machine.step_with(Event::ConnectSucceeded, 0);
    machine.step_with(
        Event::Request(
            Request::WriteSingleRegister(Indexed::new(1, 2)),
            UnitId::default(),
        ),
        0,
    );
    assert_eq!(
        machine.step_with(
            Event::Frame(vec![0xFF, 0xFF, 0, 0, 0, 6, 0xFF, 6, 0, 1, 0, 2]),
            500
        ),
        Step {
            outcome: Some(Ok(Response::WriteSingleRegister(Indexed::new(1, 2)))),
            notify: None,
            next: Action::AwaitRequest
        }
    );
    // the counter of transactions has wrapped
    let step = machine.step_with(
        Event::Request(
            Request::WriteSingleRegister(Indexed::new(1, 2)),
            UnitId::default(),
        ),
        0,
    );
    assert_eq!(
        step.next,
        Action::WriteAndAwait(vec![0, 0, 0, 0, 0, 6, 0xFF, 6, 0, 1, 0, 2])
    );
    assert_eq!(
        machine.step_with(
            Event::Frame(vec![0, 0, 0, 0, 0, 6, 0xFF, 6, 0, 1, 0, 3]),
            500
        ),
        Step {
            outcome: Some(Err(Error::BadResponse(ADUParseError::ReplyEchoMismatch))),
            notify: Some(ClientState::WaitAfterDisconnect(500)),
            next: Action::Sleep(500)
        }
    );
}

struct Counting {
    asked: Rc<Cell<u64>>,
    resets: Rc<Cell<u64>>,
}

impl RetryStrategy for Counting {
    fn reset(&mut self) {
        self.resets.set(self.resets.get() + 1);
    }

    fn next_delay(&mut self) -> u64 {
        self.asked.set(self.asked.get() + 1);
        1000 + self.asked.get()
    }
}

#[test]
fn retry_strategy_is_asked_on_failures_and_reset_on_connects_only() {
    let asked = Rc::new(Cell::new(0));
    let resets = Rc::new(Cell::new(0));
    let mut task = ChannelTask::new(
        Counting {
            asked: asked.clone(),
            resets: resets.clone(),
        },
        0,
    );
    task.step(Event::Start);
    assert_eq!((asked.get(), resets.get()), (0, 0));
    assert_eq!(task.step(Event::ConnectFailed).next, Action::Sleep(1001));
    assert_eq!((asked.get(), resets.get()), (1, 0));
    // events out of turn leave the strategy alone
    task.step(Event::ConnectFailed);
    task.step(Event::ConnectSucceeded);
    task.step(Event::ResponseTimeout);
    task.step(Event::TransportFailed(IoReason::Other));
    assert_eq!((asked.get(), resets.get()), (1, 0));
    task.step(Event::DelayElapsed);
    task.step(Event::ConnectSucceeded);
    assert_eq!((asked.get(), resets.get()), (1, 1));
    // a refused request, a request, a response and an exception ask nothing
    task.step(Event::Request(
        Request::ReadCoils(range(0, 3000)),
        UnitId::default(),
    ));
    task.step(Event::Request(
        Request::ReadCoils(range(0, 1)),
        UnitId::default(),
    ));
    task.step(Event::Frame(vec![0, 0, 0, 0, 0, 4, 0xFF, 0x01, 0x01, 0x01]));
    task.step(Event::Request(
        Request::ReadCoils(range(0, 1)),
        UnitId::default(),
    ));
    task.step(Event::Frame(vec![0, 1, 0, 0, 0, 3, 0xFF, 0x81, 0x02]));
    assert_eq!((asked.get(), resets.get()), (1, 1));
    assert_eq!(task.state(), ClientState::Connected);
    // a frame that does not decode gives up the connection
    task.step(Event::Request(
        Request::ReadCoils(range(0, 1)),
        UnitId::default(),
    ));
    assert_eq!(
        task.step(Event::Frame(vec![0, 2, 0, 0, 0, 4, 0xFF, 0x01, 0x02, 0x01])).next,
        Action::Sleep(1002)
    );
    assert_eq!((asked.get(), resets.get()), (2, 1));
    task.step(Event::DelayElapsed);
    task.step(Event::ConnectSucceeded);
    assert_eq!((asked.get(), resets.get()), (2, 2));
    assert_eq!(
        task.step(Event::TransportFailed(IoReason::ConnectionReset)).next,
        Action::Sleep(1003)
    );
    task.step(Event::DelayElapsed);
    task.step(Event::ConnectSucceeded);
    task.step(Event::Request(
        Request::ReadCoils(range(0, 1)),
        UnitId::default(),
    ));
    assert_eq!(task.step(Event::ResponseTimeout).next, Action::Sleep(1004));
    assert_eq!((asked.get(), resets.get()), (4, 3));
    task.step(Event::Shutdown);
    task.step(Event::ConnectFailed);
    assert_eq!((asked.get(), resets.get()), (4, 3));
}

#[test]
fn retry_strategy_can_be_chosen_at_run_time() {
    let mut boxed: Box<dyn RetryStrategy> = Box::new(DoublingRetryStrategy::new(5, 8));
    assert_eq!(boxed.next_delay(), 5);
    assert_eq!(boxed.next_delay(), 8);
    boxed.reset();
    assert_eq!(boxed.next_delay(), 5);
}
