//! What the worker hands to the connection: one record under the appender's
//! tag, and what it reports when the connection lets it down.

use crate::record::{LogRecord, RecordView};
use std::time::SystemTime;
use vstd::prelude::*;
use vstd::string::*;

verus! {

/// One unit of transmission: a record and the tag it is sent under.
#[derive(Debug, PartialEq, Eq)]
pub struct Transmission {
    tag: String,
    record: LogRecord,
}

/// What a [`Transmission`] holds, as mathematical values.
pub struct TransmissionView {
    pub tag: Seq<char>,
    pub record: RecordView,
}

impl TransmissionView {
    /// The fields of the payload, by name and in the order in which they are
    /// written. The instant of the record is no field: it travels as the
    /// timestamp.
    pub open spec fn payload(self) -> Seq<(Seq<char>, Seq<char>)> {
        seq![
            ("target"@, self.record.target),
            ("level"@, self.record.level),
            ("message"@, self.record.message),
        ]
    }

    /// The timestamp that goes with the payload.
    pub open spec fn timestamp(self) -> SystemTime {
        self.record.time
    }
}

impl View for Transmission {
    type V = TransmissionView;

    closed spec fn view(&self) -> TransmissionView {
        TransmissionView { tag: self.tag@, record: self.record@ }
    }
}

impl Transmission {
    /// The transmission of `record` under `tag`.
    pub fn new(tag: String, record: LogRecord) -> (transmission: Transmission)
        ensures
            transmission@ == (TransmissionView { tag: tag@, record: record@ }),
    {
        Transmission { tag, record }
    }

    /// The tag that routes the record at the collector.
    pub fn tag(&self) -> (tag: &str)
        ensures
            tag@ == self@.tag,
    {
        self.tag.as_str()
    }

    /// The record that is sent.
    pub fn record(&self) -> (record: &LogRecord)
        ensures
            record@ == self@.record,
    {
        &self.record
    }

    /// The three fields of the payload, each with its name: target, level
    /// and message, in this order.
    pub fn payload(&self) -> (fields: [(&str, &str); 3])
        ensures
            forall|i: int|
                0 <= i < 3 ==> (#[trigger] fields[i]).0@ == self@.payload()[i].0 && fields[i].1@
                    == self@.payload()[i].1,
    {
        [
            ("target", self.record.target()),
            ("level", self.record.level()),
            ("message", self.record.message()),
        ]
    }

    /// The timestamp that goes with the payload: the instant of the record.
    pub fn timestamp(&self) -> (time: SystemTime)
        ensures
            time == self@.timestamp(),
    {
        self.record.time()
    }
}

impl Clone for Transmission {
    fn clone(&self) -> (copy: Transmission)
        ensures
            copy@ == self@,
    {
        Transmission { tag: self.tag.clone(), record: self.record.clone() }
    }
}

/// What the worker reports when the connection or the channel lets it down.
/// The text that comes with a failure is the connection's own.
#[derive(Debug, PartialEq, Eq)]
pub enum Diagnostic {
    /// The connection could not be set up.
    ConnectFailed(String),
    /// One record could not be sent.
    SendFailed(String),
    /// Every sender is gone and the queue is drained.
    ChannelClosed,
}

/// What a [`Diagnostic`] holds, as mathematical values.
pub enum DiagnosticView {
    ConnectFailed(Seq<char>),
    SendFailed(Seq<char>),
    ChannelClosed,
}

impl DiagnosticView {
    /// The line that is written for the diagnostic.
    pub open spec fn message(self) -> Seq<char> {
        match self {
            DiagnosticView::ConnectFailed(detail) => "Fluentd worker pool can't be created: "@
                + detail,
            DiagnosticView::SendFailed(detail) => "Log record can't be sent to fluentd: "@
                + detail,
            DiagnosticView::ChannelClosed =>
                "Can't receive new log record: receiving on a closed channel"@,
        }
    }
}

impl View for Diagnostic {
    type V = DiagnosticView;

    open spec fn view(&self) -> DiagnosticView {
        match self {
            Diagnostic::ConnectFailed(detail) => DiagnosticView::ConnectFailed(detail@),
            Diagnostic::SendFailed(detail) => DiagnosticView::SendFailed(detail@),
            Diagnostic::ChannelClosed => DiagnosticView::ChannelClosed,
        }
    }
}

impl Diagnostic {
    /// The line that is written for the diagnostic.
    pub fn message(&self) -> (text: String)
        ensures
            text@ == self@.message(),
    {
        match self {
            Diagnostic::ConnectFailed(detail) => String::from_str(
                "Fluentd worker pool can't be created: ",
            ).concat(detail.as_str()),
            Diagnostic::SendFailed(detail) => String::from_str(
                "Log record can't be sent to fluentd: ",
            ).concat(detail.as_str()),
            Diagnostic::ChannelClosed => String::from_str(
                "Can't receive new log record: receiving on a closed channel",
            ),
        }
    }
}

} // verus!
