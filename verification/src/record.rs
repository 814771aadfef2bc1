//! The record: one log event, ready for transmission.

use std::time::SystemTime;
use vstd::prelude::*;

verus! {

/// `std::time::SystemTime`, carried through as an opaque value.
#[verifier::external_type_specification]
#[verifier::external_body]
pub struct ExSystemTime(SystemTime);

/// Reads the wall clock with `SystemTime::now`. Nothing is claimed of the
/// instant that comes back.
#[verifier::external_body]
fn wall_clock() -> (t: SystemTime) {
    SystemTime::now()
}

/// One log event: where it came from, how severe it is, its rendered text and
/// the instant at which it was emitted. A record never changes after it was
/// made.
#[derive(Debug, PartialEq, Eq)]
pub struct LogRecord {
    target: String,
    level: String,
    message: String,
    time: SystemTime,
}

/// What a [`LogRecord`] holds, as mathematical values.
pub struct RecordView {
    pub target: Seq<char>,
    pub level: Seq<char>,
    pub message: Seq<char>,
    pub time: SystemTime,
}

impl View for LogRecord {
    type V = RecordView;

    closed spec fn view(&self) -> RecordView {
        RecordView {
            target: self.target@,
            level: self.level@,
            message: self.message@,
            time: self.time,
        }
    }
}

impl LogRecord {
    /// A record of the given target, level and message, stamped with the
    /// current wall-clock time.
    pub fn new(target: &str, level: &str, message: &str) -> (record: LogRecord)
        ensures
            record@.target == target@,
            record@.level == level@,
            record@.message == message@,
    {
        LogRecord::at(target, level, message, wall_clock())
    }

    /// A record of the given target, level and message, stamped with `time`.
    pub fn at(target: &str, level: &str, message: &str, time: SystemTime) -> (record: LogRecord)
        ensures
            record@ == (RecordView {
                target: target@,
                level: level@,
                message: message@,
                time,
            }),
    {
        LogRecord {
            target: target.to_owned(),
            level: level.to_owned(),
            message: message.to_owned(),
            time,
        }
    }

    /// The logical source of the event.
    pub fn target(&self) -> (target: &str)
        ensures
            target@ == self@.target,
    {
        self.target.as_str()
    }

    /// The severity of the event, by name.
    pub fn level(&self) -> (level: &str)
        ensures
            level@ == self@.level,
    {
        self.level.as_str()
    }

    /// The rendered text of the event.
    pub fn message(&self) -> (message: &str)
        ensures
            message@ == self@.message,
    {
        self.message.as_str()
    }

    /// The instant at which the event was emitted.
    pub fn time(&self) -> (time: SystemTime)
        ensures
            time == self@.time,
    {
        self.time
    }
}

impl Clone for LogRecord {
    fn clone(&self) -> (copy: LogRecord)
        ensures
            copy@ == self@,
    {
        LogRecord {
            target: self.target.clone(),
            level: self.level.clone(),
            message: self.message.clone(),
            time: self.time,
        }
    }
}

} // verus!
