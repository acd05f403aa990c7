//! The task that owns one connection, as a machine: the runner performs
//! what a step asks for, and hands back what happened.

use vstd::prelude::*;

use crate::client::message::{Request, RequestView, Response, ResponseView};
use crate::client::retry::RetryStrategy;
use crate::common::frame::{spec_next_tx_id, FrameHeader, TxId};
use crate::error::details::{ADUParseError, InternalError};
use crate::error::{Error, IoReason};
use crate::tcp::frame::{format_mbap, parse_mbap, spec_format_mbap, spec_parse_mbap};
use crate::types::UnitId;

verus! {

/// State of a channel, as its listener sees it. The waits carry their
/// length in milliseconds.
#[derive(Clone, Copy, Debug, PartialEq, Eq, Structural)]
pub enum ClientState {
    Disabled,
    Connecting,
    Connected,
    WaitAfterFailedConnect(u64),
    WaitAfterDisconnect(u64),
    Shutdown,
}

/// What the runner reports to the task.
#[derive(Debug, Clone)]
pub enum Event {
    /// The task was started.
    Start,
    /// The transport is established.
    ConnectSucceeded,
    /// The transport could not be established.
    ConnectFailed,
    /// The wait that was asked for is over.
    DelayElapsed,
    /// The next request was taken from the queue.
    Request(Request, UnitId),
    /// The bytes of one frame arrived.
    Frame(Vec<u8>),
    /// The deadline of the request passed with no frame.
    ResponseTimeout,
    /// The transport failed, or the peer closed it.
    TransportFailed(IoReason),
    /// The queue is closed and drained, or shutdown was signalled.
    Shutdown,
}

/// What the task asks the runner to do next.
#[derive(Debug, Clone, PartialEq)]
pub enum Action {
    /// Wait for the task to be started.
    AwaitStart,
    /// Try to establish the transport.
    Connect,
    /// Wait so many milliseconds.
    Sleep(u64),
    /// Take the next request from the queue.
    AwaitRequest,
    /// Write the frame, then wait for one frame up to the deadline of the
    /// request.
    WriteAndAwait(Vec<u8>),
    /// Keep waiting for the frame.
    AwaitResponse,
    /// End the task.
    Stop,
}

/// What one step of the task comes to.
#[derive(Debug, Clone, PartialEq)]
pub struct Step {
    /// What to hand to a caller: to the one whose request the event
    /// brought, if it brought one, else to the one whose request was in
    /// flight.
    pub outcome: Option<Result<Response, Error>>,
    /// The state to post to the listener, if the state changed.
    pub notify: Option<ClientState>,
    /// What to do next.
    pub next: Action,
}

/// What an event says.
pub enum EventView {
    Start,
    ConnectSucceeded,
    ConnectFailed,
    DelayElapsed,
    Request(RequestView, UnitId),
    Frame(Seq<u8>),
    ResponseTimeout,
    TransportFailed(IoReason),
    Shutdown,
}

/// What an action says.
pub enum ActionView {
    AwaitStart,
    Connect,
    Sleep(u64),
    AwaitRequest,
    WriteAndAwait(Seq<u8>),
    AwaitResponse,
    Stop,
}

/// What a step says.
pub struct StepView {
    pub outcome: Option<Result<ResponseView, Error>>,
    pub notify: Option<ClientState>,
    pub next: ActionView,
}

/// What a task holds: its state, the request in flight with its
/// transaction, and the transaction of the next request.
pub struct TaskView {
    pub state: ClientState,
    pub in_flight: Option<(RequestView, u16)>,
    pub next_tx: u16,
}

impl View for Event {
    type V = EventView;

    open spec fn view(&self) -> EventView {
        match self {
            Event::Start => EventView::Start,
            Event::ConnectSucceeded => EventView::ConnectSucceeded,
            Event::ConnectFailed => EventView::ConnectFailed,
            Event::DelayElapsed => EventView::DelayElapsed,
            Event::Request(request, unit) => EventView::Request(request@, *unit),
            Event::Frame(bytes) => EventView::Frame(bytes@),
            Event::ResponseTimeout => EventView::ResponseTimeout,
            Event::TransportFailed(reason) => EventView::TransportFailed(*reason),
            Event::Shutdown => EventView::Shutdown,
        }
    }
}

impl View for Action {
    type V = ActionView;

    open spec fn view(&self) -> ActionView {
        match self {
            Action::AwaitStart => ActionView::AwaitStart,
            Action::Connect => ActionView::Connect,
            Action::Sleep(delay) => ActionView::Sleep(*delay),
            Action::AwaitRequest => ActionView::AwaitRequest,
            Action::WriteAndAwait(frame) => ActionView::WriteAndAwait(frame@),
            Action::AwaitResponse => ActionView::AwaitResponse,
            Action::Stop => ActionView::Stop,
        }
    }
}

/// What an outcome says.
pub open spec fn spec_outcome_view(outcome: Option<Result<Response, Error>>) -> Option<
    Result<ResponseView, Error>,
> {
    match outcome {
        None => None,
        Some(Ok(response)) => Some(Ok(response@)),
        Some(Err(err)) => Some(Err(err)),
    }
}

impl View for Step {
    type V = StepView;

    open spec fn view(&self) -> StepView {
        StepView {
            outcome: spec_outcome_view(self.outcome),
            notify: self.notify,
            next: self.next@,
        }
    }
}

impl EventView {
    /// Whether the event ends the wait for a response: a frame arrived,
    /// the deadline passed, or the connection is torn down.
    pub open spec fn settles(self) -> bool {
        self is Frame || self is ResponseTimeout || self is TransportFailed || self is Shutdown
    }
}

impl TaskView {
    /// Whether the task is one that steps lead to: a request is in flight
    /// only while connected.
    pub open spec fn wf(self) -> bool {
        self.in_flight.is_some() ==> self.state == ClientState::Connected
    }

    /// What the task waits for when an event comes that its state does not
    /// allow.
    pub open spec fn expected(self) -> ActionView {
        match self.state {
            ClientState::Disabled => ActionView::AwaitStart,
            ClientState::Connecting => ActionView::Connect,
            ClientState::WaitAfterFailedConnect(delay) => ActionView::Sleep(delay),
            ClientState::WaitAfterDisconnect(delay) => ActionView::Sleep(delay),
            ClientState::Connected => if self.in_flight.is_some() {
                ActionView::AwaitResponse
            } else {
                ActionView::AwaitRequest
            },
            ClientState::Shutdown => ActionView::Stop,
        }
    }

    /// The task in a new state, with nothing in flight.
    pub open spec fn moved(self, state: ClientState) -> TaskView {
        TaskView { state, in_flight: None, next_tx: self.next_tx }
    }
}

/// The step into a new state, with what is asked of the runner there.
pub open spec fn spec_enter(
    task: TaskView,
    state: ClientState,
    outcome: Option<Result<ResponseView, Error>>,
    next: ActionView,
) -> (TaskView, StepView) {
    (task.moved(state), StepView { outcome, notify: Some(state), next })
}

/// The step that leaves everything as it is: an event that the state does
/// not allow. A request that it brought is refused with
/// `UnexpectedEvent`.
pub open spec fn spec_refuse(task: TaskView, event: EventView) -> (TaskView, StepView) {
    (
        task,
        StepView {
            outcome: if event is Request {
                Some(Err(Error::Internal(InternalError::UnexpectedEvent)))
            } else {
                None
            },
            notify: None,
            next: task.expected(),
        },
    )
}

/// What the bytes of a frame decode to as the response to the request in
/// flight: the frame must be complete and carry the transaction of the
/// request; its protocol data unit is decoded against the request.
pub open spec fn spec_decode_reply(request: RequestView, tx_id: u16, bytes: Seq<u8>) -> Result<
    ResponseView,
    Error,
> {
    match spec_parse_mbap(bytes) {
        Err(err) => Err(Error::BadResponse(err)),
        Ok(None) => Err(Error::BadResponse(ADUParseError::InsufficientBytes)),
        Ok(Some(frame)) => if frame.header.tx_id != tx_id {
            Err(Error::BadResponse(ADUParseError::BadTransactionId))
        } else {
            request.parse_response(frame.pdu)
        },
    }
}

/// Whether the connection is kept after a request ended in `outcome`: a
/// response and an exception keep it, any other error gives it up.
pub open spec fn spec_keeps_connection(outcome: Result<ResponseView, Error>) -> bool {
    match outcome {
        Ok(_) => true,
        Err(Error::Exception(_)) => true,
        Err(_) => false,
    }
}

/// One step of the task. `delay` is what the retry strategy gives if it
/// is asked.
///
/// - Shut down, the task stays so, and refuses requests with `Shutdown`.
/// - A shutdown ends any other state, and the request in flight with
///   `Shutdown`.
/// - Disabled, the task starts to connect when started.
/// - Connecting, it goes on to connected, or waits `delay` after a failure.
/// - Waiting, it connects again when the wait is over.
/// - Connected with nothing in flight, it takes a request: one that fails
///   its check is refused at once, any other is framed and written. A
///   failure of the transport makes it wait `delay`.
/// - Connected with a request in flight, it takes the frame, the timeout
///   or the failure that ends the request. A response or an exception
///   keeps the connection; whatever else makes it wait `delay`.
pub open spec fn spec_step(task: TaskView, event: EventView, delay: u64) -> (TaskView, StepView) {
    if task.state == ClientState::Shutdown {
        (
            task,
            StepView {
                outcome: if event is Request {
                    Some(Err(Error::Shutdown))
                } else {
                    None
                },
                notify: None,
                next: ActionView::Stop,
            },
        )
    } else if event is Shutdown {
        spec_enter(
            task,
            ClientState::Shutdown,
            if task.state == ClientState::Connected && task.in_flight.is_some() {
                Some(Err(Error::Shutdown))
            } else {
                None
            },
            ActionView::Stop,
        )
    } else {
        match task.state {
            ClientState::Disabled => if event is Start {
                spec_enter(task, ClientState::Connecting, None, ActionView::Connect)
            } else {
                spec_refuse(task, event)
            },
            ClientState::Connecting => if event is ConnectSucceeded {
                spec_enter(task, ClientState::Connected, None, ActionView::AwaitRequest)
            } else if event is ConnectFailed {
                spec_enter(
                    task,
                    ClientState::WaitAfterFailedConnect(delay),
                    None,
                    ActionView::Sleep(delay),
                )
            } else {
                spec_refuse(task, event)
            },
            ClientState::WaitAfterFailedConnect(_) => if event is DelayElapsed {
                spec_enter(task, ClientState::Connecting, None, ActionView::Connect)
            } else {
                spec_refuse(task, event)
            },
            ClientState::WaitAfterDisconnect(_) => if event is DelayElapsed {
                spec_enter(task, ClientState::Connecting, None, ActionView::Connect)
            } else {
                spec_refuse(task, event)
            },
            ClientState::Connected => match task.in_flight {
                None => spec_step_idle(task, event, delay),
                Some((request, tx_id)) => spec_step_busy(task, request, tx_id, event, delay),
            },
            ClientState::Shutdown => spec_refuse(task, event),
        }
    }
}

/// The step of a connected task with nothing in flight.
pub open spec fn spec_step_idle(task: TaskView, event: EventView, delay: u64) -> (
    TaskView,
    StepView,
) {
    match event {
        EventView::Request(request, unit_id) => match request.pdu() {
            Err(err) => (
                task,
                StepView { outcome: Some(Err(err)), notify: None, next: ActionView::AwaitRequest },
            ),
            Ok(pdu) => (
                TaskView {
                    state: ClientState::Connected,
                    in_flight: Some((request, task.next_tx)),
                    next_tx: spec_next_tx_id(task.next_tx),
                },
                StepView {
                    outcome: None,
                    notify: None,
                    next: ActionView::WriteAndAwait(
                        spec_format_mbap(FrameHeader { unit_id, tx_id: task.next_tx }, pdu),
                    ),
                },
            ),
        },
        EventView::TransportFailed(_) => spec_enter(
            task,
            ClientState::WaitAfterDisconnect(delay),
            None,
            ActionView::Sleep(delay),
        ),
        _ => spec_refuse(task, event),
    }
}

/// What the end of the request in flight comes to: a response or an
/// exception goes to the caller and the connection is kept; any other
/// error goes to the caller and the task waits `delay` before it connects
/// again.
pub open spec fn spec_settle(task: TaskView, outcome: Result<ResponseView, Error>, delay: u64) -> (
    TaskView,
    StepView,
) {
    if spec_keeps_connection(outcome) {
        (
            task.moved(ClientState::Connected),
            StepView { outcome: Some(outcome), notify: None, next: ActionView::AwaitRequest },
        )
    } else {
        spec_enter(
            task,
            ClientState::WaitAfterDisconnect(delay),
            Some(outcome),
            ActionView::Sleep(delay),
        )
    }
}

/// The step of a connected task with a request in flight.
pub open spec fn spec_step_busy(
    task: TaskView,
    request: RequestView,
    tx_id: u16,
    event: EventView,
    delay: u64,
) -> (TaskView, StepView) {
    match event {
        EventView::Frame(bytes) => spec_settle(
            task,
            spec_decode_reply(request, tx_id, bytes),
            delay,
        ),
        EventView::ResponseTimeout => spec_settle(task, Err(Error::ResponseTimeout), delay),
        EventView::TransportFailed(reason) => spec_settle(
            task,
            Err(Error::Transport(reason)),
            delay,
        ),
        _ => spec_refuse(task, event),
    }
}

/// Whether the step that an event leads to asks the retry strategy for a
/// delay: where an attempt to connect failed, and where a connection is
/// given up.
pub open spec fn spec_needs_delay(task: TaskView, event: EventView) -> bool {
    match task.state {
        ClientState::Connecting => event is ConnectFailed,
        ClientState::Connected => match task.in_flight {
            None => event is TransportFailed,
            Some((request, tx_id)) => match event {
                EventView::Frame(bytes) => !spec_keeps_connection(
                    spec_decode_reply(request, tx_id, bytes),
                ),
                EventView::ResponseTimeout => true,
                EventView::TransportFailed(_) => true,
                _ => false,
            },
        },
        _ => false,
    }
}

/// The request in flight, with its transaction.
pub struct InFlight {
    request: Request,
    tx_id: u16,
}

/// What a channel task holds beside its retry strategy: the state, the
/// counter of transactions, and the request in flight.
pub struct ChannelState {
    state: ClientState,
    tx_id: TxId,
    in_flight: Option<InFlight>,
}

/// The task that owns one connection and serves its requests one at a
/// time.
pub struct ChannelTask<R: RetryStrategy> {
    machine: ChannelState,
    retry: R,
}

/// Decodes the bytes of a frame as the response to the request in flight.
pub fn decode_reply(request: &Request, tx_id: u16, bytes: &[u8]) -> (r: Result<Response, Error>)
    ensures
        match r {
            Ok(response) => spec_decode_reply(request@, tx_id, bytes@) == Ok::<
                ResponseView,
                Error,
            >(response@),
            Err(err) => spec_decode_reply(request@, tx_id, bytes@) == Err::<ResponseView, Error>(
                err,
            ),
        },
{
    let frame = match parse_mbap(bytes) {
        Err(err) => {
            return Err(Error::BadResponse(err));
        },
        Ok(None) => {
            return Err(Error::BadResponse(ADUParseError::InsufficientBytes));
        },
        Ok(Some(frame)) => frame,
    };
    if frame.header.tx_id != tx_id {
        return Err(Error::BadResponse(ADUParseError::BadTransactionId));
    }
    request.parse_response(frame.pdu)
}

/// Whether the connection is kept after a request ended in `outcome`.
fn keeps_connection(outcome: &Result<Response, Error>) -> (keep: bool)
    ensures
        keep == spec_keeps_connection(
            match outcome {
                Ok(response) => Ok(response@),
                Err(err) => Err(*err),
            },
        ),
{
    match outcome {
        Ok(_) => true,
        Err(Error::Exception(_)) => true,
        Err(_) => false,
    }
}

impl ChannelState {
    /// What the state holds.
    pub closed spec fn view(&self) -> TaskView {
        TaskView {
            state: self.state,
            in_flight: match self.in_flight {
                None => None,
                Some(in_flight) => Some((in_flight.request@, in_flight.tx_id)),
            },
            next_tx: self.tx_id@,
        }
    }

    /// The state of a disabled task, whose first transaction will be
    /// `seed`.
    pub fn new(seed: u16) -> (machine: Self)
        ensures
            machine@ == (TaskView {
                state: ClientState::Disabled,
                in_flight: None,
                next_tx: seed,
            }),
    {
        ChannelState { state: ClientState::Disabled, tx_id: TxId::new(seed), in_flight: None }
    }

    /// The state of the task.
    pub fn state(&self) -> (state: ClientState)
        ensures
            state == self@.state,
    {
        self.state
    }

    /// Whether a request is in flight.
    pub fn is_busy(&self) -> (busy: bool)
        ensures
            busy == self@.in_flight.is_some(),
    {
        self.in_flight.is_some()
    }

    /// Moves to a new state with nothing in flight.
    fn enter(
        &mut self,
        state: ClientState,
        outcome: Option<Result<Response, Error>>,
        next: Action,
    ) -> (step: Step)
        ensures
            (final(self)@, step@) == spec_enter(
                old(self)@,
                state,
                spec_outcome_view(outcome),
                next@,
            ),
    {
        self.state = state;
        self.in_flight = None;
        Step { outcome, notify: Some(state), next }
    }

    /// Leaves everything as it is, and refuses a request that the event
    /// brought.
    fn refuse(&self, event: &Event) -> (step: Step)
        ensures
            (self@, step@) == spec_refuse(self@, event@),
    {
        let outcome = match event {
            Event::Request(_, _) => Some(Err(Error::Internal(InternalError::UnexpectedEvent))),
            _ => None,
        };
        let next = match self.state {
            ClientState::Disabled => Action::AwaitStart,
            ClientState::Connecting => Action::Connect,
            ClientState::WaitAfterFailedConnect(delay) => Action::Sleep(delay),
            ClientState::WaitAfterDisconnect(delay) => Action::Sleep(delay),
            ClientState::Connected => if self.in_flight.is_some() {
                Action::AwaitResponse
            } else {
                Action::AwaitRequest
            },
            ClientState::Shutdown => Action::Stop,
        };
        Step { outcome, notify: None, next }
    }

    /// Ends the request in flight with `outcome`.
    fn settle(&mut self, outcome: Result<Response, Error>, delay: u64) -> (step: Step)
        requires
            old(self)@.state == ClientState::Connected,
        ensures
            (final(self)@, step@) == spec_settle(
                old(self)@,
                match outcome {
                    Ok(response) => Ok(response@),
                    Err(err) => Err(err),
                },
                delay,
            ),
    {
        if keeps_connection(&outcome) {
            self.in_flight = None;
            Step { outcome: Some(outcome), notify: None, next: Action::AwaitRequest }
        } else {
            self.enter(ClientState::WaitAfterDisconnect(delay), Some(outcome), Action::Sleep(delay))
        }
    }

    /// Decodes the bytes of a frame against the request in flight, if one
    /// is.
    fn decode(&self, bytes: &[u8]) -> (r: Option<Result<Response, Error>>)
        ensures
            match self@.in_flight {
                None => r.is_none(),
                Some((request, tx_id)) => spec_outcome_view(r) == Some(
                    spec_decode_reply(request, tx_id, bytes@),
                ),
            },
    {
        match &self.in_flight {
            None => None,
            Some(in_flight) => Some(decode_reply(&in_flight.request, in_flight.tx_id, bytes)),
        }
    }

    /// Whether the connection is up and a request is in flight.
    fn awaits_response(&self) -> (b: bool)
        ensures
            b == (self@.state == ClientState::Connected && self@.in_flight.is_some()),
    {
        match self.state {
            ClientState::Connected => self.in_flight.is_some(),
            _ => false,
        }
    }

    /// Whether the step for an event other than a frame asks the retry
    /// strategy for a delay.
    fn needs_delay(&self, event: &Event) -> (b: bool)
        requires
            !(event is Frame),
        ensures
            b == spec_needs_delay(self@, event@),
    {
        match self.state {
            ClientState::Connecting => match event {
                Event::ConnectFailed => true,
                _ => false,
            },
            ClientState::Connected => match event {
                Event::TransportFailed(_) => true,
                Event::ResponseTimeout => self.in_flight.is_some(),
                _ => false,
            },
            _ => false,
        }
    }

    /// Takes what the runner reports, and says what to do next. `delay`
    /// is the length in milliseconds of the wait, if the step leads to
    /// one.
    pub fn step_with(&mut self, event: Event, delay: u64) -> (step: Step)
        ensures
            (final(self)@, step@) == spec_step(old(self)@, event@, delay),
    {
        if let ClientState::Shutdown = self.state {
            let outcome = match event {
                Event::Request(_, _) => Some(Err(Error::Shutdown)),
                _ => None,
            };
            return Step { outcome, notify: None, next: Action::Stop };
        }
        if let Event::Shutdown = event {
            let outcome = if self.awaits_response() {
                Some(Err(Error::Shutdown))
            } else {
                None
            };
            return self.enter(ClientState::Shutdown, outcome, Action::Stop);
        }
        match self.state {
            ClientState::Disabled => match event {
                Event::Start => self.enter(ClientState::Connecting, None, Action::Connect),
                _ => self.refuse(&event),
            },
            ClientState::Connecting => match event {
                Event::ConnectSucceeded => self.enter(
                    ClientState::Connected,
                    None,
                    Action::AwaitRequest,
                ),
                Event::ConnectFailed => self.enter(
                    ClientState::WaitAfterFailedConnect(delay),
                    None,
                    Action::Sleep(delay),
                ),
                _ => self.refuse(&event),
            },
            ClientState::WaitAfterFailedConnect(_) => match event {
                Event::DelayElapsed => self.enter(ClientState::Connecting, None, Action::Connect),
                _ => self.refuse(&event),
            },
            ClientState::WaitAfterDisconnect(_) => match event {
                Event::DelayElapsed => self.enter(ClientState::Connecting, None, Action::Connect),
                _ => self.refuse(&event),
            },
            ClientState::Connected => {
                if self.in_flight.is_some() {
                    self.step_busy(event, delay)
                } else {
                    self.step_idle(event, delay)
                }
            },
            ClientState::Shutdown => self.refuse(&event),
        }
    }

    /// The step of a connected task with nothing in flight.
    fn step_idle(&mut self, event: Event, delay: u64) -> (step: Step)
        requires
            old(self)@.state == ClientState::Connected,
            old(self)@.in_flight.is_none(),
            !(event is Shutdown),
        ensures
            (final(self)@, step@) == spec_step(old(self)@, event@, delay),
    {
        match event {
            Event::Request(request, unit_id) => {
                let pdu: Vec<u8> = match request.to_pdu() {
                    Ok(pdu) => pdu,
                    Err(err) => {
                        return Step {
                            outcome: Some(Err(err)),
                            notify: None,
                            next: Action::AwaitRequest,
                        };
                    },
                };
                proof {
                    lemma_pdu_fits(request@);
                }
                let tx_id: u16 = self.tx_id.next();
                match format_mbap(FrameHeader::new(unit_id, tx_id), pdu.as_slice()) {
                    Ok(frame) => {
                        self.in_flight = Some(InFlight { request, tx_id });
                        Step { outcome: None, notify: None, next: Action::WriteAndAwait(frame) }
                    },
                    Err(err) => Step {
                        outcome: Some(Err(Error::Internal(err))),
                        notify: None,
                        next: Action::AwaitRequest,
                    },
                }
            },
            Event::TransportFailed(_) => self.enter(
                ClientState::WaitAfterDisconnect(delay),
                None,
                Action::Sleep(delay),
            ),
            _ => self.refuse(&event),
        }
    }

    /// The step of a connected task with a request in flight.
    fn step_busy(&mut self, event: Event, delay: u64) -> (step: Step)
        requires
            old(self)@.state == ClientState::Connected,
            old(self)@.in_flight.is_some(),
            !(event is Shutdown),
        ensures
            (final(self)@, step@) == spec_step(old(self)@, event@, delay),
    {
        match event {
            Event::Frame(bytes) => match self.decode(bytes.as_slice()) {
                Some(outcome) => self.settle(outcome, delay),
                None => self.refuse(&Event::Frame(bytes)),
            },
            Event::ResponseTimeout => self.settle(Err(Error::ResponseTimeout), delay),
            Event::TransportFailed(reason) => self.settle(Err(Error::Transport(reason)), delay),
            _ => self.refuse(&event),
        }
    }
}

/// Whether a step leads to a connection: an attempt to connect succeeded.
pub open spec fn spec_connects(task: TaskView, event: EventView) -> bool {
    task.state == ClientState::Connecting && event is ConnectSucceeded
}

/// What a step does with the retry strategy: where the step asks for a
/// delay, the strategy is asked once, and `delay` is what it gives; where
/// the step leads to a connection, the strategy is reset; everywhere else
/// the strategy is left as it was.
pub open spec fn spec_strategy_used<R: RetryStrategy>(
    before: R,
    after: R,
    task: TaskView,
    event: EventView,
    delay: u64,
) -> bool {
    if spec_needs_delay(task, event) {
        before.yields(delay, after.state())
    } else if spec_connects(task, event) {
        before.resets_to(after.state())
    } else {
        after == before
    }
}

impl<R: RetryStrategy> ChannelTask<R> {
    /// What the task holds beside its retry strategy.
    pub closed spec fn view(&self) -> TaskView {
        self.machine@
    }

    /// The retry strategy of the task.
    pub closed spec fn spec_retry(&self) -> R {
        self.retry
    }

    /// A disabled task, whose first transaction will be `seed`.
    pub fn new(retry: R, seed: u16) -> (task: Self)
        ensures
            task@ == (TaskView { state: ClientState::Disabled, in_flight: None, next_tx: seed }),
            task.spec_retry() == retry,
    {
        ChannelTask { machine: ChannelState::new(seed), retry }
    }

    /// The state of the task.
    pub fn state(&self) -> (state: ClientState)
        ensures
            state == self@.state,
    {
        self.machine.state()
    }

    /// Whether a request is in flight.
    pub fn is_busy(&self) -> (busy: bool)
        ensures
            busy == self@.in_flight.is_some(),
    {
        self.machine.is_busy()
    }

    /// Takes what the runner reports, and says what to do next, as
    /// `ChannelState::step_with` does with the delay that the retry
    /// strategy gives. The strategy is asked, once, only where an attempt
    /// to connect failed or a connection is given up; it is reset where a
    /// connection was made; and it is left alone everywhere else.
    pub fn step(&mut self, event: Event) -> (step: Step)
        ensures
            exists|delay: u64|
                (final(self)@, step@) == #[trigger] spec_step(old(self)@, event@, delay)
                    && spec_strategy_used(
                    old(self).spec_retry(),
                    final(self).spec_retry(),
                    old(self)@,
                    event@,
                    delay,
                ),
    {
        match event {
            Event::Frame(bytes) => {
                let busy: bool = self.machine.awaits_response();
                match self.machine.decode(bytes.as_slice()) {
                    Some(outcome) if busy => {
                        let delay: u64 = if keeps_connection(&outcome) {
                            0
                        } else {
                            self.retry.next_delay()
                        };
                        let step = self.machine.settle(outcome, delay);
                        assert((self@, step@) == spec_step(old(self)@, event@, delay));
                        assert(spec_strategy_used(
                            old(self).spec_retry(),
                            self.spec_retry(),
                            old(self)@,
                            event@,
                            delay,
                        ));
                        step
                    },
                    _ => {
                        let step = self.machine.step_with(Event::Frame(bytes), 0);
                        assert((self@, step@) == spec_step(old(self)@, event@, 0));
                        assert(spec_strategy_used(
                            old(self).spec_retry(),
                            self.spec_retry(),
                            old(self)@,
                            event@,
                            0,
                        ));
                        step
                    },
                }
            },
            other => {
                let connects: bool = match (self.machine.state(), &other) {
                    (ClientState::Connecting, Event::ConnectSucceeded) => true,
                    _ => false,
                };
                let delay: u64 = if self.machine.needs_delay(&other) {
                    self.retry.next_delay()
                } else {
                    if connects {
                        self.retry.reset();
                    }
                    0
                };
                let step = self.machine.step_with(other, delay);
                assert((self@, step@) == spec_step(old(self)@, event@, delay));
                assert(spec_strategy_used(
                    old(self).spec_retry(),
                    self.spec_retry(),
                    old(self)@,
                    event@,
                    delay,
                ));
                step
            },
        }
    }
}

/// The protocol data unit of a request fits in a frame.
pub proof fn lemma_pdu_fits(request: RequestView)
    ensures
        request.pdu() matches Ok(pdu) ==> pdu.len() <= crate::constants::frame::MAX_PDU_SIZE,
{
}

/// The delay decides nothing of a step that does not ask for one: the
/// retry strategy bears on the steps after a failure to connect and after
/// a connection is given up, and on no others.
pub proof fn lemma_delay_bears_on_failures_only(
    task: TaskView,
    event: EventView,
    first: u64,
    second: u64,
)
    requires
        !spec_needs_delay(task, event) || event is Shutdown,
    ensures
        spec_step(task, event, first) == spec_step(task, event, second),
{
}

/// One step of a run: `spec_step`, under a name of its own, so that what
/// is proved of runs rests on what is proved of a step and need not look
/// into it.
#[verifier::opaque]
pub open spec fn spec_run_step(task: TaskView, event: EventView, delay: u64) -> (
    TaskView,
    StepView,
) {
    spec_step(task, event, delay)
}

/// A step of a run is a step.
pub proof fn lemma_run_step(task: TaskView, event: EventView, delay: u64)
    ensures
        spec_run_step(task, event, delay) == spec_step(task, event, delay),
{
    reveal(spec_run_step);
}

/// The task after the first `n` events of a run, where `delays[i]` is what
/// the retry strategy gives at event `i` if it is asked.
pub open spec fn spec_run(task: TaskView, events: Seq<EventView>, delays: Seq<u64>, n: nat) -> TaskView
    decreases n,
{
    if n == 0 {
        task
    } else {
        spec_run_step(
            spec_run(task, events, delays, (n - 1) as nat),
            events[n - 1],
            delays[n - 1],
        ).0
    }
}

/// What step `i` of a run comes to.
pub open spec fn spec_step_at(
    task: TaskView,
    events: Seq<EventView>,
    delays: Seq<u64>,
    i: int,
) -> StepView {
    spec_run_step(spec_run(task, events, delays, i as nat), events[i], delays[i]).1
}

/// Step `i` of a run is the step that `spec_step` gives from the task
/// after `i` events, and leads to the task after one more.
pub proof fn lemma_step_at(task: TaskView, events: Seq<EventView>, delays: Seq<u64>, i: nat)
    ensures
        spec_step_at(task, events, delays, i as int) == spec_step(
            spec_run(task, events, delays, i),
            events[i as int],
            delays[i as int],
        ).1,
        spec_run(task, events, delays, i + 1) == spec_step(
            spec_run(task, events, delays, i),
            events[i as int],
            delays[i as int],
        ).0,
{
    lemma_run_step(spec_run(task, events, delays, i), events[i as int], delays[i as int]);
}

/// One step keeps at most one request in flight: a frame is written only
/// for a request that arrives while none is in flight, which is then in
/// flight; and a request in flight stays so, with no frame written, until
/// a frame arrives, the deadline passes, or the connection is torn down.
pub proof fn lemma_step_one_in_flight(task: TaskView, event: EventView, delay: u64)
    requires
        task.wf(),
    ensures
        spec_step(task, event, delay).0.wf(),
        spec_step(task, event, delay).1.next is WriteAndAwait ==> task.in_flight.is_none()
            && event is Request && spec_step(task, event, delay).0.in_flight.is_some(),
        task.in_flight.is_some() && !event.settles() ==> spec_step(task, event, delay).0.in_flight
            == task.in_flight && !(spec_step(task, event, delay).1.next is WriteAndAwait),
        task.in_flight.is_some() ==> !(spec_step(task, event, delay).1.next is WriteAndAwait),
{
}

/// What `lemma_step_one_in_flight` says of a step, of a step of a run.
pub proof fn lemma_run_step_one_in_flight(task: TaskView, event: EventView, delay: u64)
    requires
        task.wf(),
    ensures
        spec_run_step(task, event, delay).0.wf(),
        spec_run_step(task, event, delay).1.next is WriteAndAwait ==> task.in_flight.is_none()
            && spec_run_step(task, event, delay).0.in_flight.is_some(),
        task.in_flight.is_some() && !event.settles() ==> spec_run_step(
            task,
            event,
            delay,
        ).0.in_flight == task.in_flight,
        task.in_flight.is_some() ==> !(spec_run_step(task, event, delay).1.next is WriteAndAwait),
{
    lemma_run_step(task, event, delay);
    lemma_step_one_in_flight(task, event, delay);
}

/// A run from a well-formed task leads to well-formed tasks.
pub proof fn lemma_run_wf(task: TaskView, events: Seq<EventView>, delays: Seq<u64>, n: nat)
    requires
        task.wf(),
    ensures
        spec_run(task, events, delays, n).wf(),
    decreases n,
{
    if n > 0 {
        lemma_run_wf(task, events, delays, (n - 1) as nat);
        lemma_run_step_one_in_flight(
            spec_run(task, events, delays, (n - 1) as nat),
            events[n - 1],
            delays[n - 1],
        );
    }
}

/// A request that is in flight after `a` events is still in flight after
/// `b`, if none of the events between ends the wait for its response.
pub proof fn lemma_stays_in_flight(
    task: TaskView,
    events: Seq<EventView>,
    delays: Seq<u64>,
    a: nat,
    b: nat,
)
    requires
        task.wf(),
        a <= b,
        spec_run(task, events, delays, a).in_flight.is_some(),
        forall|k: int| a <= k < b ==> !(#[trigger] events[k]).settles(),
    ensures
        spec_run(task, events, delays, b).in_flight == spec_run(task, events, delays, a).in_flight,
    decreases b,
{
    if a < b {
        lemma_stays_in_flight(task, events, delays, a, (b - 1) as nat);
        lemma_run_wf(task, events, delays, (b - 1) as nat);
        assert(!events[b - 1].settles());
        lemma_run_step_one_in_flight(
            spec_run(task, events, delays, (b - 1) as nat),
            events[b - 1],
            delays[b - 1],
        );
    }
}

/// At most one request is in flight: between two steps of a run that each
/// write a frame lies an event at which a frame arrived, the deadline
/// passed, or the connection was torn down.
pub proof fn lemma_one_in_flight(
    task: TaskView,
    events: Seq<EventView>,
    delays: Seq<u64>,
    i: int,
    j: int,
)
    requires
        task.wf(),
        0 <= i < j,
        spec_step_at(task, events, delays, i).next is WriteAndAwait,
        spec_step_at(task, events, delays, j).next is WriteAndAwait,
    ensures
        exists|k: int| i < k < j && (#[trigger] events[k]).settles(),
{
    if !(exists|k: int| i < k < j && (#[trigger] events[k]).settles()) {
        let first = (i + 1) as nat;
        lemma_run_wf(task, events, delays, i as nat);
        lemma_run_step_one_in_flight(
            spec_run(task, events, delays, i as nat),
            events[i],
            delays[i],
        );
        assert(spec_run(task, events, delays, first) == spec_run_step(
            spec_run(task, events, delays, i as nat),
            events[i],
            delays[i],
        ).0);
        assert forall|k: int| first <= k < j implies !(#[trigger] events[k]).settles() by {
            assert(i < k < j);
        }
        lemma_stays_in_flight(task, events, delays, first, j as nat);
        lemma_run_wf(task, events, delays, j as nat);
        lemma_run_step_one_in_flight(
            spec_run(task, events, delays, j as nat),
            events[j],
            delays[j],
        );
        assert(false);
    }
}

/// The transaction that the `k`-th request after `seed` gets.
pub open spec fn spec_tx_after(seed: u16, k: nat) -> u16
    decreases k,
{
    if k == 0 {
        seed
    } else {
        spec_next_tx_id(spec_tx_after(seed, (k - 1) as nat))
    }
}

/// The events of a run in which requests and the frames that answer them
/// take turns.
pub open spec fn spec_exchange(requests: Seq<(RequestView, UnitId)>, replies: Seq<Seq<u8>>) -> Seq<
    EventView,
> {
    Seq::new(
        2 * requests.len(),
        |i: int|
            if i % 2 == 0 {
                EventView::Request(requests[i / 2].0, requests[i / 2].1)
            } else {
                EventView::Frame(replies[i / 2])
            },
    )
}

/// Whether a run of requests and answers never gives up the connection:
/// every request passes its check, and every answer decodes to a response
/// or to an exception.
pub open spec fn spec_exchange_holds(
    seed: u16,
    requests: Seq<(RequestView, UnitId)>,
    replies: Seq<Seq<u8>>,
) -> bool {
    &&& requests.len() == replies.len()
    &&& forall|i: int|
        0 <= i < requests.len() ==> (#[trigger] requests[i]).0.check_validity().is_ok()
    &&& forall|i: int|
        0 <= i < requests.len() ==> spec_keeps_connection(
            spec_decode_reply(
                requests[i].0,
                spec_tx_after(seed, i as nat),
                #[trigger] replies[i],
            ),
        )
}

/// The task between a request and its answer: connected, with the request
/// in flight under the transaction `tx_id`.
pub open spec fn spec_busy_with(request: RequestView, tx_id: u16) -> TaskView {
    TaskView {
        state: ClientState::Connected,
        in_flight: Some((request, tx_id)),
        next_tx: spec_next_tx_id(tx_id),
    }
}

/// The task between two exchanges: connected, with nothing in flight.
pub open spec fn spec_idle_at(next_tx: u16) -> TaskView {
    TaskView { state: ClientState::Connected, in_flight: None, next_tx }
}

/// One request and its answer, on a connection that holds: the first step
/// writes the frame of the request under the next transaction; the second
/// hands the caller what the answer decodes to, and leaves the task
/// connected with nothing in flight.
pub proof fn lemma_exchange_once(
    next_tx: u16,
    request: RequestView,
    unit_id: UnitId,
    reply: Seq<u8>,
    first: u64,
    second: u64,
)
    requires
        request.check_validity().is_ok(),
        spec_keeps_connection(spec_decode_reply(request, next_tx, reply)),
    ensures
        request.pdu().is_ok(),
        spec_run_step(spec_idle_at(next_tx), EventView::Request(request, unit_id), first) == (
            spec_busy_with(request, next_tx),
            StepView {
                outcome: None,
                notify: None,
                next: ActionView::WriteAndAwait(
                    spec_format_mbap(
                        FrameHeader { unit_id, tx_id: next_tx },
                        request.pdu().unwrap(),
                    ),
                ),
            },
        ),
        spec_run_step(spec_busy_with(request, next_tx), EventView::Frame(reply), second) == (
            spec_idle_at(spec_next_tx_id(next_tx)),
            StepView {
                outcome: Some(spec_decode_reply(request, next_tx, reply)),
                notify: None,
                next: ActionView::AwaitRequest,
            },
        ),
{
    crate::server::request::lemma_request_roundtrip(request);
    let idle = spec_idle_at(next_tx);
    let busy = spec_busy_with(request, next_tx);
    lemma_run_step(idle, EventView::Request(request, unit_id), first);
    lemma_run_step(busy, EventView::Frame(reply), second);
    assert(spec_step(idle, EventView::Request(request, unit_id), first) == spec_step_idle(
        idle,
        EventView::Request(request, unit_id),
        first,
    ));
    assert(spec_step(busy, EventView::Frame(reply), second) == spec_settle(
        busy,
        spec_decode_reply(request, next_tx, reply),
        second,
    ));
}

/// After `k` requests of such a run have been answered, the task is
/// connected with nothing in flight, and `k` transactions on.
pub proof fn lemma_exchange_state(
    task: TaskView,
    requests: Seq<(RequestView, UnitId)>,
    replies: Seq<Seq<u8>>,
    delays: Seq<u64>,
    k: nat,
)
    requires
        task.state == ClientState::Connected,
        task.in_flight.is_none(),
        spec_exchange_holds(task.next_tx, requests, replies),
        k <= requests.len(),
    ensures
        spec_run(task, spec_exchange(requests, replies), delays, 2 * k) == spec_idle_at(
            spec_tx_after(task.next_tx, k),
        ),
    decreases k,
{
    if k > 0 {
        let events = spec_exchange(requests, replies);
        let at = 2 * (k - 1);
        let request = requests[k - 1];
        let tx_id = spec_tx_after(task.next_tx, (k - 1) as nat);
        lemma_exchange_state(task, requests, replies, delays, (k - 1) as nat);
        assert(events[at] == EventView::Request(request.0, request.1));
        assert(events[at + 1] == EventView::Frame(replies[k - 1]));
        assert(request.0.check_validity().is_ok());
        assert(spec_keeps_connection(spec_decode_reply(request.0, tx_id, replies[k - 1])));
        lemma_exchange_once(tx_id, request.0, request.1, replies[k - 1], delays[at], delays[at + 1]);
        assert(spec_run(task, events, delays, (at + 1) as nat) == spec_run_step(
            spec_run(task, events, delays, at as nat),
            events[at],
            delays[at],
        ).0);
        assert(spec_run(task, events, delays, (at + 2) as nat) == spec_run_step(
            spec_run(task, events, delays, (at + 1) as nat),
            events[at + 1],
            delays[at + 1],
        ).0);
    }
}

/// In a run in which requests and the frames that answer them take turns
/// and the connection holds, the step that takes the `k`-th request writes
/// the frame of that request, under the `k`-th transaction, and leaves the
/// request in flight.
pub proof fn lemma_request_written_at(
    task: TaskView,
    requests: Seq<(RequestView, UnitId)>,
    replies: Seq<Seq<u8>>,
    delays: Seq<u64>,
    k: int,
)
    requires
        task.state == ClientState::Connected,
        task.in_flight.is_none(),
        spec_exchange_holds(task.next_tx, requests, replies),
        0 <= k < requests.len(),
    ensures
        requests[k].0.pdu().is_ok(),
        spec_step_at(task, spec_exchange(requests, replies), delays, 2 * k).next
            == ActionView::WriteAndAwait(
            spec_format_mbap(
                FrameHeader {
                    unit_id: requests[k].1,
                    tx_id: spec_tx_after(task.next_tx, k as nat),
                },
                requests[k].0.pdu().unwrap(),
            ),
        ),
        spec_run(task, spec_exchange(requests, replies), delays, (2 * k + 1) as nat)
            == spec_busy_with(requests[k].0, spec_tx_after(task.next_tx, k as nat)),
{
    let events = spec_exchange(requests, replies);
    let request = requests[k];
    let tx_id = spec_tx_after(task.next_tx, k as nat);
    let at = (2 * k) as nat;
    lemma_exchange_state(task, requests, replies, delays, k as nat);
    assert(spec_run(task, events, delays, at) == spec_idle_at(tx_id));
    assert(events[2 * k] == EventView::Request(request.0, request.1));
    assert(request.0.check_validity().is_ok());
    assert(spec_keeps_connection(spec_decode_reply(request.0, tx_id, replies[k])));
    lemma_exchange_once(tx_id, request.0, request.1, replies[k], delays[2 * k], delays[2 * k + 1]);
    let step = spec_run_step(
        spec_idle_at(tx_id),
        EventView::Request(request.0, request.1),
        delays[2 * k],
    );
    assert(spec_step_at(task, events, delays, 2 * k) == step.1);
    assert(spec_run(task, events, delays, at + 1) == step.0);
}

/// In such a run, the step that takes the answer to the `k`-th request
/// hands the caller what the answer decodes to, and leaves the task
/// connected with nothing in flight, one transaction on.
pub proof fn lemma_answer_delivered_at(
    task: TaskView,
    requests: Seq<(RequestView, UnitId)>,
    replies: Seq<Seq<u8>>,
    delays: Seq<u64>,
    k: int,
)
    requires
        task.state == ClientState::Connected,
        task.in_flight.is_none(),
        spec_exchange_holds(task.next_tx, requests, replies),
        0 <= k < requests.len(),
    ensures
        spec_step_at(task, spec_exchange(requests, replies), delays, 2 * k + 1).outcome == Some(
            spec_decode_reply(requests[k].0, spec_tx_after(task.next_tx, k as nat), replies[k]),
        ),
        spec_run(task, spec_exchange(requests, replies), delays, (2 * k + 2) as nat)
            == spec_idle_at(spec_tx_after(task.next_tx, (k + 1) as nat)),
{
    let events = spec_exchange(requests, replies);
    let request = requests[k];
    let tx_id = spec_tx_after(task.next_tx, k as nat);
    let at = (2 * k + 1) as nat;
    lemma_request_written_at(task, requests, replies, delays, k);
    assert(spec_run(task, events, delays, at) == spec_busy_with(request.0, tx_id));
    assert(events[2 * k + 1] == EventView::Frame(replies[k]));
    assert(request.0.check_validity().is_ok());
    assert(spec_keeps_connection(spec_decode_reply(request.0, tx_id, replies[k])));
    lemma_exchange_once(tx_id, request.0, request.1, replies[k], delays[2 * k], delays[2 * k + 1]);
    let step = spec_run_step(
        spec_busy_with(request.0, tx_id),
        EventView::Frame(replies[k]),
        delays[2 * k + 1],
    );
    assert(spec_step_at(task, events, delays, 2 * k + 1) == step.1);
    assert(spec_run(task, events, delays, at + 1) == step.0);
}

/// Requests reach the peer in the order in which the task is handed them:
/// in a run in which requests and the frames that answer them take turns
/// and the connection holds, the step that takes the `k`-th request writes
/// the frame of that request, under the `k`-th transaction, and the step
/// that takes the answer hands the caller what the answer decodes to.
pub proof fn lemma_requests_written_in_order(
    task: TaskView,
    requests: Seq<(RequestView, UnitId)>,
    replies: Seq<Seq<u8>>,
    delays: Seq<u64>,
    k: int,
)
    requires
        task.state == ClientState::Connected,
        task.in_flight.is_none(),
        spec_exchange_holds(task.next_tx, requests, replies),
        0 <= k < requests.len(),
    ensures
        requests[k].0.pdu().is_ok(),
        spec_step_at(task, spec_exchange(requests, replies), delays, 2 * k).next
            == ActionView::WriteAndAwait(
            spec_format_mbap(
                FrameHeader {
                    unit_id: requests[k].1,
                    tx_id: spec_tx_after(task.next_tx, k as nat),
                },
                requests[k].0.pdu().unwrap(),
            ),
        ),
        spec_step_at(task, spec_exchange(requests, replies), delays, 2 * k + 1).outcome == Some(
            spec_decode_reply(requests[k].0, spec_tx_after(task.next_tx, k as nat), replies[k]),
        ),
{
    lemma_request_written_at(task, requests, replies, delays, k);
    lemma_answer_delivered_at(task, requests, replies, delays, k);
}

} // verus!
