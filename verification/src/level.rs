//! Severity levels and the names under which they are transmitted.

use vstd::prelude::*;

verus! {

/// The severity of a log event, most severe first.
#[derive(Clone, Copy, Debug, PartialEq, Eq, PartialOrd, Ord, Hash, Structural)]
pub enum Level {
    Error,
    Warn,
    Info,
    Debug,
    Trace,
}

impl Level {
    /// The name of the level as it is written into a record.
    pub open spec fn name(self) -> Seq<char> {
        match self {
            Level::Error => "ERROR"@,
            Level::Warn => "WARN"@,
            Level::Info => "INFO"@,
            Level::Debug => "DEBUG"@,
            Level::Trace => "TRACE"@,
        }
    }

    /// The name of the level as an owned string.
    pub fn label(self) -> (label: String)
        ensures
            label@ == self.name(),
    {
        display_level(self)
    }
}

/// Formats the matching `log::Level` through its `Display` impl. That impl
/// pads `Level::as_str`, which indexes the table of upper-case level names;
/// with no width given the padding adds nothing.
#[verifier::external_body]
fn display_level(level: Level) -> (text: String)
    ensures
        text@ == level.name(),
{
    let outside = match level {
        Level::Error => log::Level::Error,
        Level::Warn => log::Level::Warn,
        Level::Info => log::Level::Info,
        Level::Debug => log::Level::Debug,
        Level::Trace => log::Level::Trace,
    };
    format!("{}", outside)
}

} // verus!
