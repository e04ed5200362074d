//! Structured logging: which records pass the configured threshold and what
//! entry each of them becomes in the cloud logging format.

use crate::text::{decimal, u64_to_string};
use chrono::DateTime;
use google_cloud_logging::{GCLogSeverity, GCOperation, GCSourceLocation, GoogleCloudStructLog};
use vstd::prelude::*;
use vstd::string::*;

verus! {

/// Verbosity of one log record, most severe first.
#[derive(Clone, Copy, Debug, PartialEq, Eq, Structural)]
pub enum Level {
    Error,
    Warn,
    Info,
    Debug,
    Trace,
}

/// Threshold of a logger: `Off` lets nothing through, `Trace` everything.
#[derive(Clone, Copy, Debug, PartialEq, Eq, Structural)]
pub enum LevelFilter {
    Off,
    Error,
    Warn,
    Info,
    Debug,
    Trace,
}

/// Severity of an entry, by the names of the cloud logging service; these
/// are the severities that records are filed under.
#[derive(Clone, Copy, Debug, PartialEq, Eq, Structural)]
pub enum Severity {
    Debug,
    Info,
    Warning,
    Error,
}

impl Level {
    /// Position of the level on the verbosity scale, `Error` being 1.
    pub open spec fn rank(self) -> int {
        match self {
            Level::Error => 1,
            Level::Warn => 2,
            Level::Info => 3,
            Level::Debug => 4,
            Level::Trace => 5,
        }
    }

    /// The filter that lets through this level and everything more severe.
    pub open spec fn filter(self) -> LevelFilter {
        match self {
            Level::Error => LevelFilter::Error,
            Level::Warn => LevelFilter::Warn,
            Level::Info => LevelFilter::Info,
            Level::Debug => LevelFilter::Debug,
            Level::Trace => LevelFilter::Trace,
        }
    }

    /// The severity under which a record of this level is filed.
    pub open spec fn severity(self) -> Severity {
        match self {
            Level::Error => Severity::Error,
            Level::Warn => Severity::Warning,
            Level::Info => Severity::Info,
            Level::Debug => Severity::Debug,
            Level::Trace => Severity::Debug,
        }
    }

    /// Converts the level to the filter of the same rank.
    pub fn to_level_filter(&self) -> (f: LevelFilter)
        ensures
            f == self.filter(),
            f.rank() == self.rank(),
    {
        match self {
            Level::Error => LevelFilter::Error,
            Level::Warn => LevelFilter::Warn,
            Level::Info => LevelFilter::Info,
            Level::Debug => LevelFilter::Debug,
            Level::Trace => LevelFilter::Trace,
        }
    }

    fn rank_value(&self) -> (r: u8)
        ensures
            r == self.rank(),
    {
        match self {
            Level::Error => 1,
            Level::Warn => 2,
            Level::Info => 3,
            Level::Debug => 4,
            Level::Trace => 5,
        }
    }
}

impl LevelFilter {
    /// Position of the filter on the verbosity scale, `Off` being 0.
    pub open spec fn rank(self) -> int {
        match self {
            LevelFilter::Off => 0,
            LevelFilter::Error => 1,
            LevelFilter::Warn => 2,
            LevelFilter::Info => 3,
            LevelFilter::Debug => 4,
            LevelFilter::Trace => 5,
        }
    }

    /// Whether a record of `level` passes this filter.
    pub open spec fn admits(self, level: Level) -> bool {
        level.rank() <= self.rank()
    }

    fn rank_value(&self) -> (r: u8)
        ensures
            r == self.rank(),
    {
        match self {
            LevelFilter::Off => 0,
            LevelFilter::Error => 1,
            LevelFilter::Warn => 2,
            LevelFilter::Info => 3,
            LevelFilter::Debug => 4,
            LevelFilter::Trace => 5,
        }
    }
}

/// One log line as the request pipeline emits it: its level, the operation
/// it belongs to, and its text.
#[derive(Debug, PartialEq, Eq)]
pub struct LogRecord {
    pub level: Level,
    pub target: String,
    pub message: String,
}

/// Mathematical content of a [`LogRecord`].
pub struct LogRecordView {
    pub level: Level,
    pub target: Seq<char>,
    pub message: Seq<char>,
}

impl View for LogRecord {
    type V = LogRecordView;

    open spec fn view(&self) -> LogRecordView {
        LogRecordView { level: self.level, target: self.target@, message: self.message@ }
    }
}

/// The views of a run of records, in order.
pub open spec fn records_view(records: Seq<LogRecord>) -> Seq<LogRecordView> {
    records.map_values(|r: LogRecord| r@)
}

/// A structured entry ready to be written out; the time of writing is
/// added by whoever writes it.
#[derive(Debug, PartialEq, Eq)]
pub struct LogEntry {
    pub severity: Severity,
    pub message: String,
    pub report_type: Option<String>,
    pub operation_id: String,
    pub operation_producer: String,
    pub file: String,
    pub line: String,
    pub trace: String,
}

/// Mathematical content of a [`LogEntry`].
pub struct LogEntryView {
    pub severity: Severity,
    pub message: Seq<char>,
    pub report_type: Option<Seq<char>>,
    pub operation_id: Seq<char>,
    pub operation_producer: Seq<char>,
    pub file: Seq<char>,
    pub line: Seq<char>,
    pub trace: Seq<char>,
}

impl View for LogEntry {
    type V = LogEntryView;

    open spec fn view(&self) -> LogEntryView {
        LogEntryView {
            severity: self.severity,
            message: self.message@,
            report_type: match self.report_type {
                Some(t) => Some(t@),
                None => None,
            },
            operation_id: self.operation_id@,
            operation_producer: self.operation_producer@,
            file: self.file@,
            line: self.line@,
            trace: self.trace@,
        }
    }
}

/// The view of an optional entry.
pub open spec fn entry_view(entry: Option<LogEntry>) -> Option<LogEntryView> {
    match entry {
        Some(e) => Some(e@),
        None => None,
    }
}

/// The view of an optional string.
pub open spec fn string_view(s: Option<String>) -> Option<Seq<char>> {
    match s {
        Some(s) => Some(s@),
        None => None,
    }
}

/// The view of an optional string slice.
pub open spec fn str_view(s: Option<&str>) -> Option<Seq<char>> {
    match s {
        Some(s) => Some(s@),
        None => None,
    }
}

/// The JSON text that the cloud logging structures make of an entry stamped
/// with the time that lies `seconds` and `nanoseconds` after the Unix
/// epoch; nothing where that time cannot be represented or the encoder
/// fails.
pub uninterp spec fn entry_json(entry: LogEntryView, seconds: i64, nanoseconds: u32) -> Option<Seq<char>>;

/// Reads the clock with `chrono::Utc::now` and splits the time into whole
/// seconds since the Unix epoch (`timestamp`) and the nanoseconds past them
/// (`timestamp_subsec_nanos`). Trusted, with nothing claimed of the result.
/// The call aborts the program if the system clock is set before the epoch.
#[verifier::external_body]
pub(crate) fn now() -> (time: (i64, u32)) {
    let now = chrono::Utc::now();
    (now.timestamp(), now.timestamp_subsec_nanos())
}

/// Fills a `google_cloud_logging::GoogleCloudStructLog` with the entry and
/// the time made by `chrono::DateTime::from_timestamp`, and encodes it with
/// `serde_json::to_string`. Trusted: the outcome is the one that
/// `entry_json` names, that is, it depends on the entry and the time alone.
#[verifier::external_body]
pub(crate) fn encode_entry(entry: LogEntry, seconds: i64, nanoseconds: u32) -> (json: Option<String>)
    ensures
        string_view(json) == entry_json(entry@, seconds, nanoseconds),
{
    let severity = match entry.severity {
        Severity::Debug => GCLogSeverity::Debug,
        Severity::Info => GCLogSeverity::Info,
        Severity::Warning => GCLogSeverity::Warning,
        Severity::Error => GCLogSeverity::Error,
    };
    let operation = GCOperation { id: Some(&entry.operation_id), producer: Some(&entry.operation_producer), ..Default::default() };
    let location = GCSourceLocation { file: Some(&entry.file), line: Some(entry.line), ..Default::default() };
    let time = DateTime::from_timestamp(seconds, nanoseconds)?;
    let log = GoogleCloudStructLog { severity: Some(severity), message: Some(entry.message), report_type: entry.report_type,
        time: Some(time), operation: Some(operation), source_location: Some(location), trace: Some(entry.trace), ..Default::default() };
    serde_json::to_string(&log).ok()
}

/// Name under which this program reports its operations.
pub open spec fn producer_name() -> Seq<char> {
    "reddit-save-bot"@
}

/// Version this program reports with its name.
pub open spec fn producer_version() -> Seq<char> {
    "0.1.0"@
}

/// The operation producer of every entry: name, a colon, version.
pub open spec fn operation_producer() -> Seq<char> {
    producer_name() + ":"@ + producer_version()
}

/// The type tag that makes the error reporting service pick up an entry.
pub open spec fn error_report_type() -> Seq<char> {
    "type.googleapis.com/google.devtools.clouderrorreporting.v1beta1.ReportedErrorEvent"@
}

/// The threshold a logger is created with: an explicit level wins, else
/// silent mode means errors only, else everything.
pub open spec fn initial_filter(max_log_level: Option<Level>, silent: Option<bool>) -> LevelFilter {
    match max_log_level {
        Some(level) => level.filter(),
        None => if silent == Some(true) {
            LevelFilter::Error
        } else {
            LevelFilter::Trace
        },
    }
}

/// The entry that a record becomes, given where it was raised.
pub open spec fn entry_of(
    producer: Seq<char>,
    report_type: Seq<char>,
    record: LogRecordView,
    file: Option<Seq<char>>,
    line: Option<u32>,
) -> LogEntryView {
    LogEntryView {
        severity: record.level.severity(),
        message: record.message,
        report_type: if record.level.severity() == Severity::Error {
            Some(report_type)
        } else {
            None
        },
        operation_id: record.target,
        operation_producer: producer,
        file: match file {
            Some(f) => f,
            None => Seq::empty(),
        },
        line: match line {
            Some(n) => decimal(n as int),
            None => decimal(0),
        },
        trace: record.target,
    }
}

/// A logger for the cloud logging format with a verbosity threshold.
#[derive(Debug, PartialEq, Eq)]
pub struct Logger {
    operation_producer: String,
    error_report_type: String,
    max_log_level: LevelFilter,
}

/// Mathematical content of a [`Logger`].
pub struct LoggerView {
    pub operation_producer: Seq<char>,
    pub error_report_type: Seq<char>,
    pub max_log_level: LevelFilter,
}

impl View for Logger {
    type V = LoggerView;

    closed spec fn view(&self) -> LoggerView {
        LoggerView {
            operation_producer: self.operation_producer@,
            error_report_type: self.error_report_type@,
            max_log_level: self.max_log_level,
        }
    }
}

impl Logger {
    /// Creates a logger. An explicit `max_log_level` sets the threshold;
    /// without one, `silent` set to true lets only errors through and
    /// anything else lets everything through.
    pub fn new(max_log_level: Option<Level>, silent: Option<bool>) -> (logger: Logger)
        ensures
            logger@ == (LoggerView {
                operation_producer: operation_producer(),
                error_report_type: error_report_type(),
                max_log_level: initial_filter(max_log_level, silent),
            }),
    {
        let max_log_level = match max_log_level {
            Some(level) => level.to_level_filter(),
            None => match silent {
                Some(true) => LevelFilter::Error,
                _ => LevelFilter::Trace,
            },
        };
        let operation_producer = String::from_str("reddit-save-bot").concat(":").concat("0.1.0");
        Logger {
            operation_producer,
            error_report_type: String::from_str(
                "type.googleapis.com/google.devtools.clouderrorreporting.v1beta1.ReportedErrorEvent",
            ),
            max_log_level,
        }
    }

    /// The threshold of this logger.
    pub fn max_log_level(&self) -> (f: LevelFilter)
        ensures
            f == self@.max_log_level,
    {
        self.max_log_level
    }

    /// Maps a record's level to the severity it is filed under; the two
    /// most verbose levels share `Debug`.
    pub fn log_level_to_gc_severity(&self, level: Level) -> (severity: Severity)
        ensures
            severity == level.severity(),
    {
        match level {
            Level::Error => Severity::Error,
            Level::Warn => Severity::Warning,
            Level::Info => Severity::Info,
            Level::Debug => Severity::Debug,
            Level::Trace => Severity::Debug,
        }
    }

    /// Whether a record of `level` passes the threshold.
    pub fn enabled(&self, level: Level) -> (b: bool)
        ensures
            b == self@.max_log_level.admits(level),
    {
        level.rank_value() <= self.max_log_level.rank_value()
    }

    /// The entry that `record` becomes under this logger, or nothing when
    /// the record does not pass the threshold.
    pub open spec fn entry_model(
        self,
        record: LogRecordView,
        file: Option<Seq<char>>,
        line: Option<u32>,
    ) -> Option<LogEntryView> {
        if self@.max_log_level.admits(record.level) {
            Some(entry_of(self@.operation_producer, self@.error_report_type, record, file, line))
        } else {
            None
        }
    }

    /// The line that `record` becomes under this logger at the given time:
    /// the JSON text of its entry, or nothing when the record does not pass
    /// the threshold.
    pub open spec fn line_model(
        self,
        record: LogRecordView,
        file: Option<Seq<char>>,
        line: Option<u32>,
        seconds: i64,
        nanoseconds: u32,
    ) -> Option<Seq<char>> {
        match self.entry_model(record, file, line) {
            Some(entry) => entry_json(entry, seconds, nanoseconds),
            None => None,
        }
    }

    /// Turns a record into the entry to write, or into nothing when the
    /// record does not pass the threshold. The record's target serves as
    /// the operation id and as the trace; a missing file is the empty
    /// string and a missing line is line 0.
    pub fn entry(&self, record: &LogRecord, file: Option<&str>, line: Option<u32>) -> (entry: Option<LogEntry>)
        ensures
            entry_view(entry) == self.entry_model(record@, str_view(file), line),
    {
        if !self.enabled(record.level) {
            return None;
        }
        let severity = self.log_level_to_gc_severity(record.level);
        let report_type = match severity {
            Severity::Error => Some(self.error_report_type.clone()),
            _ => None,
        };
        let file = match file {
            Some(f) => String::from_str(f),
            None => String::new(),
        };
        let line: u64 = match line {
            Some(n) => n as u64,
            None => 0,
        };
        Some(
            LogEntry {
                severity,
                message: record.message.clone(),
                report_type,
                operation_id: record.target.clone(),
                operation_producer: self.operation_producer.clone(),
                file,
                line: u64_to_string(line),
                trace: record.target.clone(),
            },
        )
    }

    /// The line to write for a record at the given time, in seconds and
    /// nanoseconds since the Unix epoch: the JSON encoding of the record's
    /// entry. Nothing is written for a record that does not pass the
    /// threshold, nor where the encoder gives nothing.
    pub fn render(
        &self,
        record: &LogRecord,
        file: Option<&str>,
        line: Option<u32>,
        seconds: i64,
        nanoseconds: u32,
    ) -> (out: Option<String>)
        ensures
            string_view(out) == self.line_model(
                record@,
                str_view(file),
                line,
                seconds,
                nanoseconds,
            ),
    {
        match self.entry(record, file, line) {
            Some(entry) => encode_entry(entry, seconds, nanoseconds),
            None => None,
        }
    }

    /// The line to write for a record now. The time stamp is the clock's,
    /// so all that is fixed is that the line encodes the record's entry at
    /// some time, and that a record below the threshold gives no line.
    pub fn log(&self, record: &LogRecord, file: Option<&str>, line: Option<u32>) -> (out: Option<String>)
        ensures
            !self@.max_log_level.admits(record.level) ==> out is None,
            exists|seconds: i64, nanoseconds: u32|
                string_view(out) == #[trigger] self.line_model(
                    record@,
                    str_view(file),
                    line,
                    seconds,
                    nanoseconds,
                ),
    {
        if !self.enabled(record.level) {
            assert(self.line_model(record@, str_view(file), line, 0, 0) is None);
            return None;
        }
        let (seconds, nanoseconds) = now();
        self.render(record, file, line, seconds, nanoseconds)
    }
}

/// What a program installs at startup: the logger and the process-wide
/// threshold above which records are dropped before they reach it.
#[derive(Debug, PartialEq, Eq)]
pub struct LoggerSetup {
    pub logger: Logger,
    pub max_level: LevelFilter,
}

/// The logging setup of the program: a logger that lets everything
/// through, behind a process-wide threshold of `Info`.
pub fn set_up_logger() -> (setup: LoggerSetup)
    ensures
        setup.logger@ == (LoggerView {
            operation_producer: operation_producer(),
            error_report_type: error_report_type(),
            max_log_level: LevelFilter::Trace,
        }),
        setup.max_level == LevelFilter::Info,
{
    let logger = Logger::new(None, None);
    LoggerSetup { logger, max_level: LevelFilter::Info }
}

} // verus!
