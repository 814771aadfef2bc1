//! The delivery worker: the single consumer of the hand-off channel.
//!
//! The worker decides and its driver acts. The driver performs the
//! [`Action`] that the worker asks for (connecting, waiting for a record,
//! sending) and answers with the [`Event`] that came of it; the worker moves
//! to its next state and asks for the next action. An event that does not
//! answer the outstanding request changes nothing.

use crate::channel::{Channel, ChannelView, TryRecvError};
use crate::record::{LogRecord, RecordView};
use crate::transmission::{Diagnostic, DiagnosticView, Transmission, TransmissionView};
use vstd::prelude::*;

verus! {

/// For how long, in seconds, the connection retries before it gives up.
pub const CONNECTION_RETRY_TIMEOUT_SECS: u64 = 5;

/// The state of the outgoing connection, as the worker knows it.
#[derive(Clone, Copy, Debug, PartialEq, Eq, Structural)]
pub enum ConnectionState {
    Disconnected,
    Connecting,
    Connected,
}

/// What the driver tells the worker.
#[derive(Debug, PartialEq, Eq)]
pub enum Event {
    /// The connection is set up.
    Connected,
    /// The connection could not be set up; the text says why.
    ConnectFailed(String),
    /// A record was taken off the channel.
    Received(LogRecord),
    /// The channel is drained and every sender is gone.
    Disconnected,
    /// The record in flight was handed to the connection.
    Sent,
    /// The record in flight could not be sent; the text says why.
    SendFailed(String),
}

/// What an [`Event`] holds, as mathematical values.
pub enum EventView {
    Connected,
    ConnectFailed(Seq<char>),
    Received(RecordView),
    Disconnected,
    Sent,
    SendFailed(Seq<char>),
}

impl EventView {
    /// The event is the outcome of a connect or of a send: it comes from the
    /// connection, not from the channel.
    pub open spec fn from_connection(self) -> bool {
        self is Connected || self is ConnectFailed || self is Sent || self is SendFailed
    }

    /// The event is the outcome of a send.
    pub open spec fn from_send(self) -> bool {
        self is Sent || self is SendFailed
    }
}

impl View for Event {
    type V = EventView;

    open spec fn view(&self) -> EventView {
        match self {
            Event::Connected => EventView::Connected,
            Event::ConnectFailed(detail) => EventView::ConnectFailed(detail@),
            Event::Received(record) => EventView::Received(record@),
            Event::Disconnected => EventView::Disconnected,
            Event::Sent => EventView::Sent,
            Event::SendFailed(detail) => EventView::SendFailed(detail@),
        }
    }
}

/// What the worker asks its driver to do.
#[derive(Debug, PartialEq, Eq)]
pub enum Action {
    /// Set up the connection to `addr`, retrying for at most this long.
    Connect { addr: String, retry_timeout_secs: u64 },
    /// Take the next record off the channel, waiting for one if need be.
    Receive,
    /// Send this record under its tag and with its timestamp.
    Send(Transmission),
    /// End the task: the worker is done for good.
    Stop,
}

/// What an [`Action`] holds, as mathematical values.
pub enum ActionView {
    Connect { addr: Seq<char>, retry_timeout_secs: u64 },
    Receive,
    Send(TransmissionView),
    Stop,
}

impl View for Action {
    type V = ActionView;

    open spec fn view(&self) -> ActionView {
        match self {
            Action::Connect { addr, retry_timeout_secs } => ActionView::Connect {
                addr: addr@,
                retry_timeout_secs: *retry_timeout_secs,
            },
            Action::Receive => ActionView::Receive,
            Action::Send(transmission) => ActionView::Send(transmission@),
            Action::Stop => ActionView::Stop,
        }
    }
}

/// The outcome of one step: what is to be reported, if anything, and what
/// the driver is to do next.
#[derive(Debug, PartialEq, Eq)]
pub struct Step {
    pub report: Option<Diagnostic>,
    pub action: Action,
}

/// What a [`Step`] holds, as mathematical values.
pub struct StepView {
    pub report: Option<DiagnosticView>,
    pub action: ActionView,
}

impl View for Step {
    type V = StepView;

    open spec fn view(&self) -> StepView {
        StepView {
            report: match self.report {
                Some(diagnostic) => Some(diagnostic@),
                None => None,
            },
            action: self.action@,
        }
    }
}

#[derive(Debug)]
enum State {
    Initializing,
    Waiting,
    Sending(LogRecord),
    Failed,
    Closed,
}

/// The states of the worker. It starts in `Initializing`; while it runs it
/// is `Waiting` for a record or `Sending` one; `Failed` and `Closed` are
/// final.
pub enum StateView {
    /// The connection is being set up.
    Initializing,
    /// Running, with no record in flight.
    Waiting,
    /// Running, with this record in flight.
    Sending(RecordView),
    /// The connection could not be set up.
    Failed,
    /// The channel was closed and drained.
    Closed,
}

/// The delivery worker.
#[derive(Debug)]
pub struct Worker {
    tag: String,
    addr: String,
    state: State,
}

/// What a [`Worker`] holds, as mathematical values.
pub struct WorkerView {
    pub tag: Seq<char>,
    pub addr: Seq<char>,
    pub state: StateView,
}

impl WorkerView {
    /// The worker as it is created: about to connect.
    pub open spec fn start(tag: Seq<char>, addr: Seq<char>) -> WorkerView {
        WorkerView { tag, addr, state: StateView::Initializing }
    }

    /// The worker has ended for good.
    pub open spec fn stopped(self) -> bool {
        self.state is Failed || self.state is Closed
    }

    /// The worker is connected and consumes records.
    pub open spec fn running(self) -> bool {
        self.state is Waiting || self.state is Sending
    }

    /// The state of the connection that goes with the worker's state.
    pub open spec fn connection(self) -> ConnectionState {
        match self.state {
            StateView::Initializing => ConnectionState::Connecting,
            StateView::Waiting | StateView::Sending(_) => ConnectionState::Connected,
            StateView::Failed | StateView::Closed => ConnectionState::Disconnected,
        }
    }

    /// The transmission of `record` under the worker's tag.
    pub open spec fn transmission(self, record: RecordView) -> TransmissionView {
        TransmissionView { tag: self.tag, record }
    }

    /// What the worker asks of its driver in this state.
    pub open spec fn action(self) -> ActionView {
        match self.state {
            StateView::Initializing => ActionView::Connect {
                addr: self.addr,
                retry_timeout_secs: CONNECTION_RETRY_TIMEOUT_SECS,
            },
            StateView::Waiting => ActionView::Receive,
            StateView::Sending(record) => ActionView::Send(self.transmission(record)),
            StateView::Failed | StateView::Closed => ActionView::Stop,
        }
    }

    /// The event answers the request that is outstanding in this state.
    pub open spec fn answers(self, event: EventView) -> bool {
        match (self.state, event) {
            (StateView::Initializing, EventView::Connected) => true,
            (StateView::Initializing, EventView::ConnectFailed(_)) => true,
            (StateView::Waiting, EventView::Received(_)) => true,
            (StateView::Waiting, EventView::Disconnected) => true,
            (StateView::Sending(_), EventView::Sent) => true,
            (StateView::Sending(_), EventView::SendFailed(_)) => true,
            _ => false,
        }
    }

    /// The worker after `event`.
    pub open spec fn next(self, event: EventView) -> WorkerView {
        let state = match (self.state, event) {
            (StateView::Initializing, EventView::Connected) => StateView::Waiting,
            (StateView::Initializing, EventView::ConnectFailed(_)) => StateView::Failed,
            (StateView::Waiting, EventView::Received(record)) => StateView::Sending(record),
            (StateView::Waiting, EventView::Disconnected) => StateView::Closed,
            (StateView::Sending(_), EventView::Sent) => StateView::Waiting,
            (StateView::Sending(_), EventView::SendFailed(_)) => StateView::Waiting,
            _ => self.state,
        };
        WorkerView { state, ..self }
    }

    /// What the worker reports on `event`.
    pub open spec fn report(self, event: EventView) -> Option<DiagnosticView> {
        match (self.state, event) {
            (StateView::Initializing, EventView::ConnectFailed(detail)) => Some(
                DiagnosticView::ConnectFailed(detail),
            ),
            (StateView::Waiting, EventView::Disconnected) => Some(DiagnosticView::ChannelClosed),
            (StateView::Sending(_), EventView::SendFailed(detail)) => Some(
                DiagnosticView::SendFailed(detail),
            ),
            _ => None,
        }
    }

    /// The outcome of the step that `event` causes.
    pub open spec fn step(self, event: EventView) -> StepView {
        StepView { report: self.report(event), action: self.next(event).action() }
    }

    /// The event that a look at the channel gives a waiting worker, if any.
    pub open spec fn arrival(self, channel: ChannelView) -> Option<EventView> {
        if !(self.state is Waiting) {
            None
        } else if channel.ready() {
            Some(EventView::Received(channel.queue[0]))
        } else if channel.disconnected() {
            Some(EventView::Disconnected)
        } else {
            None
        }
    }

    /// The worker after a look at the channel.
    pub open spec fn after_poll(self, channel: ChannelView) -> WorkerView {
        match self.arrival(channel) {
            Some(event) => self.next(event),
            None => self,
        }
    }

    /// The channel after a look at it by this worker.
    pub open spec fn channel_after_poll(self, channel: ChannelView) -> ChannelView {
        if self.state is Waiting {
            channel.after_recv()
        } else {
            channel
        }
    }
}

impl View for State {
    type V = StateView;

    closed spec fn view(&self) -> StateView {
        match self {
            State::Initializing => StateView::Initializing,
            State::Waiting => StateView::Waiting,
            State::Sending(record) => StateView::Sending(record@),
            State::Failed => StateView::Failed,
            State::Closed => StateView::Closed,
        }
    }
}

impl View for Worker {
    type V = WorkerView;

    closed spec fn view(&self) -> WorkerView {
        WorkerView { tag: self.tag@, addr: self.addr@, state: self.state@ }
    }
}

impl Worker {
    /// A worker that will send under `tag` to `addr`. It has not connected
    /// yet: its first action is to connect.
    pub fn new(tag: String, addr: String) -> (worker: Worker)
        ensures
            worker@ == WorkerView::start(tag@, addr@),
    {
        Worker { tag, addr, state: State::Initializing }
    }

    /// The tag under which the worker sends.
    pub fn tag(&self) -> (tag: &str)
        ensures
            tag@ == self@.tag,
    {
        self.tag.as_str()
    }

    /// The address of the collector.
    pub fn addr(&self) -> (addr: &str)
        ensures
            addr@ == self@.addr,
    {
        self.addr.as_str()
    }

    /// Whether the worker has ended for good.
    pub fn is_stopped(&self) -> (stopped: bool)
        ensures
            stopped == self@.stopped(),
    {
        match &self.state {
            State::Failed => true,
            State::Closed => true,
            _ => false,
        }
    }

    /// The state of the connection.
    pub fn connection(&self) -> (connection: ConnectionState)
        ensures
            connection == self@.connection(),
    {
        match &self.state {
            State::Initializing => ConnectionState::Connecting,
            State::Waiting => ConnectionState::Connected,
            State::Sending(_) => ConnectionState::Connected,
            State::Failed => ConnectionState::Disconnected,
            State::Closed => ConnectionState::Disconnected,
        }
    }

    /// What the driver is to do now.
    pub fn action(&self) -> (action: Action)
        ensures
            action@ == self@.action(),
    {
        match &self.state {
            State::Initializing => Action::Connect {
                addr: self.addr.clone(),
                retry_timeout_secs: CONNECTION_RETRY_TIMEOUT_SECS,
            },
            State::Waiting => Action::Receive,
            State::Sending(record) => Action::Send(
                Transmission::new(self.tag.clone(), record.clone()),
            ),
            State::Failed => Action::Stop,
            State::Closed => Action::Stop,
        }
    }

    /// Takes the answer of the driver, moves on and says what to do next.
    ///
    /// A failure to connect ends the worker. A failure to send is reported
    /// and the record is dropped: the worker goes on with the next one.
    pub fn step(&mut self, event: Event) -> (step: Step)
        ensures
            final(self)@ == old(self)@.next(event@),
            step@ == old(self)@.step(event@),
    {
        let report = match event {
            Event::Connected => {
                if let State::Initializing = &self.state {
                    self.state = State::Waiting;
                }
                None
            },
            Event::ConnectFailed(detail) => {
                if let State::Initializing = &self.state {
                    self.state = State::Failed;
                    Some(Diagnostic::ConnectFailed(detail))
                } else {
                    None
                }
            },
            Event::Received(record) => {
                if let State::Waiting = &self.state {
                    self.state = State::Sending(record);
                }
                None
            },
            Event::Disconnected => {
                if let State::Waiting = &self.state {
                    self.state = State::Closed;
                    Some(Diagnostic::ChannelClosed)
                } else {
                    None
                }
            },
            Event::Sent => {
                if let State::Sending(_) = &self.state {
                    self.state = State::Waiting;
                }
                None
            },
            Event::SendFailed(detail) => {
                if let State::Sending(_) = &self.state {
                    self.state = State::Waiting;
                    Some(Diagnostic::SendFailed(detail))
                } else {
                    None
                }
            },
        };
        let action = self.action();
        Step { report, action }
    }

    /// Gives up the receiver of `channel` once the worker has ended, so that
    /// every later hand-off is refused. Returns whether it did; a worker that
    /// has not ended keeps the receiver.
    pub fn release(&self, channel: &mut Channel) -> (released: bool)
        ensures
            released == self@.stopped(),
            final(channel)@ == if self@.stopped() {
                old(channel)@.after_drop_receiver()
            } else {
                old(channel)@
            },
    {
        if self.is_stopped() {
            channel.drop_receiver();
            true
        } else {
            false
        }
    }

    /// Looks at the channel on behalf of a worker that waits for a record.
    ///
    /// Where a record is queued, the worker takes the oldest and asks for it
    /// to be sent. Where the channel is drained and closed, the worker ends.
    /// Otherwise, and whenever the worker is not waiting, nothing changes and
    /// `None` comes back: the driver waits until a sender has enqueued.
    pub fn poll(&mut self, channel: &mut Channel) -> (step: Option<Step>)
        ensures
            final(self)@ == old(self)@.after_poll(old(channel)@),
            final(channel)@ == old(self)@.channel_after_poll(old(channel)@),
            match old(self)@.arrival(old(channel)@) {
                Some(event) => step matches Some(s) && s@ == old(self)@.step(event),
                None => step is None,
            },
    {
        if let State::Waiting = &self.state {
            match channel.try_recv() {
                Ok(record) => Some(self.step(Event::Received(record))),
                Err(TryRecvError::Disconnected) => Some(self.step(Event::Disconnected)),
                Err(TryRecvError::Empty) => None,
            }
        } else {
            None
        }
    }
}

} // verus!
