//! Log records as the library sees them: a severity level, a timestamp in
//! seconds since the Unix epoch, the producing module's name, and the
//! message text. The host builds one per log call.

use vstd::prelude::*;

verus! {

/// Severity of a record, most severe first. A logger configured at some
/// level accepts records at that level or a more severe one.
#[derive(Copy, Clone, Eq, PartialEq, Structural, Debug, Hash)]
pub enum Level {
    Error,
    Warn,
    Info,
    Debug,
    Trace,
}

impl Level {
    /// Numeric rank: severe levels rank lowest.
    pub open spec fn rank(self) -> int {
        match self {
            Level::Error => 1,
            Level::Warn => 2,
            Level::Info => 3,
            Level::Debug => 4,
            Level::Trace => 5,
        }
    }

    /// The level's name, padded to five characters.
    pub open spec fn spec_text(self) -> Seq<char> {
        match self {
            Level::Error => "ERROR"@,
            Level::Warn => "WARN "@,
            Level::Info => "INFO "@,
            Level::Debug => "DEBUG"@,
            Level::Trace => "TRACE"@,
        }
    }

    pub fn text(self) -> (r: &'static str)
        ensures
            r@ == self.spec_text(),
    {
        match self {
            Level::Error => "ERROR",
            Level::Warn => "WARN ",
            Level::Info => "INFO ",
            Level::Debug => "DEBUG",
            Level::Trace => "TRACE",
        }
    }

    /// Whether a record at this level passes a logger configured at `config`.
    pub open spec fn spec_enabled_at(self, config: Level) -> bool {
        self.rank() <= config.rank()
    }

    pub fn enabled_at(self, config: Level) -> (r: bool)
        ensures
            r == self.spec_enabled_at(config),
    {
        self.to_rank() <= config.to_rank()
    }

    fn to_rank(self) -> (r: u8)
        ensures
            r == self.rank(),
    {
        match self {
            Level::Error => 1,
            Level::Warn => 2,
            Level::Info => 3,
            Level::Debug => 4,
            Level::Trace => 5,
        }
    }
}

/// One log record, as handed to the logger by the host.
pub struct Record {
    pub level: Level,
    /// Seconds since the Unix epoch, taken when the record was made.
    pub timestamp: u64,
    /// The producing module's path.
    pub target: String,
    pub message: String,
}

impl Record {
    pub fn new(level: Level, timestamp: u64, target: String, message: String) -> (r: Record)
        ensures
            r.level == level,
            r.timestamp == timestamp,
            r.target == target,
            r.message == message,
    {
        Record { level, timestamp, target, message }
    }
}

} // verus!
