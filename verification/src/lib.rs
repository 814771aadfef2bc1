//! Asynchronous delivery of log events to a Fluentd-compatible collector.
//!
//! An emitting thread renders an event, turns it into a [`LogRecord`] and puts
//! it on a hand-off [`Channel`]. A single [`Worker`] owns the consuming end:
//! it asks its driver to connect, takes records off the channel in order and
//! asks for each to be sent under the appender's tag. The worker is a state
//! machine without I/O of its own: the driver performs each [`Action`] and
//! answers with an [`Event`].

pub mod appender;
pub mod channel;
pub mod laws;
pub mod level;
pub mod record;
pub mod transmission;
pub mod worker;

pub use appender::{
    BuilderView, DeliveryError, FluentdAppender, FluentdAppenderBuilder, Pipeline,
};
pub use channel::{Channel, ChannelView, TryRecvError};
pub use level::Level;
pub use record::{LogRecord, RecordView};
pub use transmission::{Diagnostic, DiagnosticView, Transmission, TransmissionView};
pub use worker::{
    Action, ActionView, ConnectionState, Event, EventView, StateView, Step, StepView, Worker,
    WorkerView, CONNECTION_RETRY_TIMEOUT_SECS,
};
