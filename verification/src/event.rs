//! Log events and the default formatting rule that turns an event into a
//! displayable record.

use vstd::prelude::*;
use vstd::string::StringExecFns;

use crate::text::dec_spec;
use crate::text::u64_to_dec;

verus! {

/// Severity of one log occurrence.
#[derive(Clone, Copy, Debug, PartialEq, Eq, Structural)]
pub enum Level {
    Debug,
    Info,
    Warn,
    Error,
}

/// Numeric rank of a severity; higher means more severe.
pub open spec fn level_rank_spec(l: Level) -> nat {
    match l {
        Level::Debug => 0,
        Level::Info => 1,
        Level::Warn => 2,
        Level::Error => 3,
    }
}

/// Display name of a severity.
pub open spec fn level_name_spec(l: Level) -> Seq<char> {
    match l {
        Level::Debug => "DEBUG"@,
        Level::Info => "INFO"@,
        Level::Warn => "WARN"@,
        Level::Error => "ERROR"@,
    }
}

/// Numeric rank of a severity; higher means more severe.
pub fn level_rank(l: Level) -> (r: u8)
    ensures
        r as nat == level_rank_spec(l),
{
    match l {
        Level::Debug => 0,
        Level::Info => 1,
        Level::Warn => 2,
        Level::Error => 3,
    }
}

/// Display name of a severity.
pub fn level_name(l: Level) -> (r: &'static str)
    ensures
        r@ == level_name_spec(l),
{
    match l {
        Level::Debug => "DEBUG",
        Level::Info => "INFO",
        Level::Warn => "WARN",
        Level::Error => "ERROR",
    }
}

/// One log occurrence, immutable once constructed: severity, payload, the
/// tag of the thread that produced it, and a timestamp.
pub struct Event {
    pub level: Level,
    pub message: String,
    pub thread_tag: String,
    pub timestamp: u64,
}

impl Event {
    /// Builds an event from its parts.
    pub fn new(level: Level, message: String, thread_tag: String, timestamp: u64) -> (e: Event)
        ensures
            e.level == level,
            e.message == message,
            e.thread_tag == thread_tag,
            e.timestamp == timestamp,
    {
        Event { level, message, thread_tag, timestamp }
    }

    /// The record the default formatting rule produces for this event:
    /// `[LEVEL] tag timestamp message`.
    pub open spec fn format_spec(self) -> Seq<char> {
        "["@ + level_name_spec(self.level) + "] "@ + self.thread_tag@ + " "@ + dec_spec(
            self.timestamp as nat,
        ) + " "@ + self.message@
    }

    /// Formats this event into a displayable record by the default rule.
    pub fn format_by_default(&self) -> (r: String)
        ensures
            r@ == self.format_spec(),
    {
        let mut s = String::from_str("[");
        s.append(level_name(self.level));
        s.append("] ");
        s.append(self.thread_tag.as_str());
        s.append(" ");
        let ts = u64_to_dec(self.timestamp);
        s.append(ts.as_str());
        s.append(" ");
        s.append(self.message.as_str());
        s
    }
}

} // verus!
