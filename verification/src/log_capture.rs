//! Capture of log records into a `LogBuffer`.
//!
//! The logger of the platform hands every record to `CaptureLogger::log`
//! together with the buffer; what comes back says whether the record is to be
//! passed on to the console as well.

use vstd::prelude::*;
use vstd::string::StringExecFns;
use crate::log_buffer::{is_stored_text, with_room, LogBuffer, LogEntry, LogLevel};

verus! {

/// The severity of a record, the most severe first.
#[derive(Clone, Copy, Debug, PartialEq, Eq, Structural)]
pub enum Level {
    Error,
    Warn,
    Info,
    Debug,
    Trace,
}

impl Level {
    /// How verbose a logger has to be to let the level pass: 1 for `Error`
    /// up to 5 for `Trace`.
    pub open spec fn spec_verbosity(self) -> u8 {
        match self {
            Level::Error => 1,
            Level::Warn => 2,
            Level::Info => 3,
            Level::Debug => 4,
            Level::Trace => 5,
        }
    }

    #[verifier::when_used_as_spec(spec_verbosity)]
    pub fn verbosity(self) -> (verbosity: u8)
        ensures
            verbosity == self.spec_verbosity(),
    {
        match self {
            Level::Error => 1,
            Level::Warn => 2,
            Level::Info => 3,
            Level::Debug => 4,
            Level::Trace => 5,
        }
    }

    /// The level under which a record of this severity is stored.
    pub open spec fn spec_log_level(self) -> LogLevel {
        match self {
            Level::Error => LogLevel::Error,
            Level::Warn => LogLevel::Warn,
            Level::Info => LogLevel::Info,
            Level::Debug => LogLevel::Debug,
            Level::Trace => LogLevel::Trace,
        }
    }

    #[verifier::when_used_as_spec(spec_log_level)]
    pub fn log_level(self) -> (level: LogLevel)
        ensures
            level == self.spec_log_level(),
    {
        match self {
            Level::Error => LogLevel::Error,
            Level::Warn => LogLevel::Warn,
            Level::Info => LogLevel::Info,
            Level::Debug => LogLevel::Debug,
            Level::Trace => LogLevel::Trace,
        }
    }
}

/// `str`'s `==`: whether two strings hold the same characters.
#[verifier::external_body]
fn same_text(a: &str, b: &str) -> (same: bool)
    ensures
        same == (a@ == b@),
{
    a == b
}

/// The level under which a record is stored: `Notice` for the target
/// `"NOTICE"`, and the record's own level for any other.
pub open spec fn captured_level(target: Seq<char>, level: Level) -> LogLevel {
    if target == "NOTICE"@ {
        LogLevel::Notice
    } else {
        level.spec_log_level()
    }
}

/// Whether the logger stores records of this level at all: `Warn` and above.
pub open spec fn is_stored_level(level: LogLevel) -> bool {
    level.spec_rank() >= LogLevel::Warn.spec_rank()
}

/// The label of a record on the console.
pub open spec fn console_label_text(target: Seq<char>, level: Level) -> Seq<char> {
    if target == "NOTICE"@ {
        "NOTICE"@
    } else {
        match level {
            Level::Error => "ERROR"@,
            Level::Warn => "WARN"@,
            Level::Info => "INFO"@,
            Level::Debug => "DEBUG"@,
            Level::Trace => "TRACE"@,
        }
    }
}

/// Computes `captured_level`.
pub fn level_of_record(target: &str, level: Level) -> (captured: LogLevel)
    ensures
        captured == captured_level(target@, level),
{
    if same_text(target, "NOTICE") {
        LogLevel::Notice
    } else {
        level.log_level()
    }
}

/// Computes `console_label_text`.
pub fn console_label(target: &str, level: Level) -> (label: &'static str)
    ensures
        label@ == console_label_text(target@, level),
{
    if same_text(target, "NOTICE") {
        "NOTICE"
    } else {
        match level {
            Level::Error => "ERROR",
            Level::Warn => "WARN",
            Level::Info => "INFO",
            Level::Debug => "DEBUG",
            Level::Trace => "TRACE",
        }
    }
}

/// Logger that captures to the ring buffer and chains to the console.
#[derive(Clone, Copy, Debug)]
pub struct CaptureLogger {
    max_level: Level,
}

impl CaptureLogger {
    /// The most verbose level that the logger lets pass.
    pub closed spec fn spec_max_level(&self) -> Level {
        self.max_level
    }

    /// Whether the logger lets a record of this level pass.
    pub open spec fn spec_enabled(&self, level: Level) -> bool {
        level.spec_verbosity() <= self.spec_max_level().spec_verbosity()
    }

    /// Whether the logger stores a record in `buffer`: it lets the record
    /// pass, the record is a warning or worse, and the buffer captures its
    /// level.
    pub open spec fn stores(&self, buffer: &LogBuffer, target: Seq<char>, level: Level) -> bool {
        &&& self.spec_enabled(level)
        &&& is_stored_level(captured_level(target, level))
        &&& buffer.captures(captured_level(target, level))
    }

    /// Create a new capture logger.
    pub fn new(max_level: Level) -> (logger: Self)
        ensures
            logger.spec_max_level() == max_level,
    {
        Self { max_level }
    }

    #[verifier::when_used_as_spec(spec_max_level)]
    pub fn max_level(&self) -> (level: Level)
        ensures
            level == self.spec_max_level(),
    {
        self.max_level
    }

    /// Whether the logger lets a record of this level pass.
    #[verifier::when_used_as_spec(spec_enabled)]
    pub fn enabled(&self, level: Level) -> (enabled: bool)
        ensures
            enabled == self.spec_enabled(level),
    {
        level.verbosity() <= self.max_level.verbosity()
    }

    /// Takes one record. A record that the logger does not let pass is
    /// dropped. Any other is stored in `buffer` if it is a warning or worse
    /// and the buffer captures its level, and is then to be written to the
    /// console: the result says so.
    pub fn log(
        &self,
        buffer: &mut LogBuffer,
        target: &str,
        level: Level,
        message: &str,
    ) -> (chain: bool)
        ensures
            chain == self.spec_enabled(level),
            final(buffer).spec_min_level() == old(buffer).spec_min_level(),
            final(buffer).spec_enabled() == old(buffer).spec_enabled(),
            !self.stores(old(buffer), target@, level) ==> final(buffer).entries() == old(buffer).entries(),
            self.stores(old(buffer), target@, level) ==> {
                &&& final(buffer).entries().len() == with_room(old(buffer).entries()).len() + 1
                &&& final(buffer).entries().drop_last() == with_room(old(buffer).entries())
                &&& final(buffer).entries().last().level == captured_level(target@, level)
                &&& is_stored_text(message@, final(buffer).entries().last().text())
            },
    {
        if !self.enabled(level) {
            return false;
        }
        let captured = level_of_record(target, level);
        if captured.rank() >= LogLevel::Warn.rank() {
            buffer.push(captured, message);
        }
        true
    }
}

/// Get a snapshot of recent log entries: level and message of the most
/// recent `count` entries, newest first.
pub fn recent_entries(buffer: &LogBuffer, count: usize) -> (entries: Vec<(LogLevel, String)>)
    ensures
        entries@.len() == if count <= buffer.entries().len() {
            count as nat
        } else {
            buffer.entries().len()
        },
        forall|i: int|
            0 <= i < entries@.len() ==> {
                &&& (#[trigger] entries@[i]).0 == buffer.entries()[buffer.entries().len() - 1
                    - i].level
                &&& entries@[i].1@ == buffer.entries()[buffer.entries().len() - 1 - i].text()
            },
{
    let recent = buffer.recent(count);
    let mut entries: Vec<(LogLevel, String)> = Vec::new();
    let mut i: usize = 0;
    while i < recent.len()
        invariant
            i <= recent@.len(),
            recent@.len() <= buffer.entries().len(),
            forall|k: int|
                0 <= k < recent@.len() ==> *(#[trigger] recent@[k]) == buffer.entries()[
                    buffer.entries().len() - 1 - k],
            entries@.len() == i,
            forall|k: int|
                0 <= k < i ==> {
                    &&& (#[trigger] entries@[k]).0 == buffer.entries()[buffer.entries().len() - 1
                        - k].level
                    &&& entries@[k].1@ == buffer.entries()[buffer.entries().len() - 1 - k].text()
                },
        decreases recent@.len() - i,
    {
        let entry = recent[i];
        entries.push((entry.level, String::from_str(entry.as_str())));
        i += 1;
    }
    entries
}

/// Get a snapshot of recent log entries as `LogEntry` values, newest first.
pub fn recent_log_entries(buffer: &LogBuffer, count: usize) -> (entries: Vec<LogEntry>)
    ensures
        entries@.len() == if count <= buffer.entries().len() {
            count as nat
        } else {
            buffer.entries().len()
        },
        forall|i: int|
            0 <= i < entries@.len() ==> {
                &&& (#[trigger] entries@[i]).level == buffer.entries()[buffer.entries().len() - 1
                    - i].level
                &&& entries@[i].text() == buffer.entries()[buffer.entries().len() - 1 - i].text()
            },
{
    let recent = buffer.recent(count);
    let mut entries: Vec<LogEntry> = Vec::new();
    let mut i: usize = 0;
    while i < recent.len()
        invariant
            i <= recent@.len(),
            recent@.len() <= buffer.entries().len(),
            forall|k: int|
                0 <= k < recent@.len() ==> *(#[trigger] recent@[k]) == buffer.entries()[
                    buffer.entries().len() - 1 - k],
            entries@.len() == i,
            forall|k: int|
                0 <= k < i ==> {
                    &&& (#[trigger] entries@[k]).level == buffer.entries()[buffer.entries().len()
                        - 1 - k].level
                    &&& entries@[k].text() == buffer.entries()[buffer.entries().len() - 1
                        - k].text()
                },
        decreases recent@.len() - i,
    {
        let entry = recent[i];
        entries.push(LogEntry { level: entry.level, message: entry.message.clone() });
        i += 1;
    }
    entries
}

/// Clear all captured log entries.
pub fn clear(buffer: &mut LogBuffer)
    ensures
        final(buffer).entries() == Seq::<LogEntry>::empty(),
        final(buffer).spec_min_level() == old(buffer).spec_min_level(),
        final(buffer).spec_enabled() == old(buffer).spec_enabled(),
{
    buffer.clear();
}

/// Set the minimum log level for the buffer. Messages below this level are
/// not stored.
pub fn set_min_level(buffer: &mut LogBuffer, level: LogLevel)
    ensures
        final(buffer).spec_min_level() == level,
        final(buffer).entries() == old(buffer).entries(),
        final(buffer).spec_enabled() == old(buffer).spec_enabled(),
{
    buffer.set_min_level(level);
}

/// Enable or disable log capture to the buffer.
pub fn set_enabled(buffer: &mut LogBuffer, enabled: bool)
    ensures
        final(buffer).spec_enabled() == enabled,
        final(buffer).entries() == old(buffer).entries(),
        final(buffer).spec_min_level() == old(buffer).spec_min_level(),
{
    buffer.set_enabled(enabled);
}

} // verus!
