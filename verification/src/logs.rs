//! Meilisearch's JSON log lines, re-emitted at the level Meilisearch gave.

use vstd::prelude::*;

use crate::text::same_text;

verus! {

/// The level a log line is emitted at.
#[derive(Debug, Clone, Copy, PartialEq, Eq, Structural)]
pub enum LogLevel {
    Trace,
    Debug,
    Info,
    Warn,
    Error,
}

/// The level for Meilisearch's level label: `TRACE`, `DEBUG`, `WARN` and
/// `ERROR` are their own level; any other label is `Info`.
pub open spec fn spec_parse_log_level(level: Seq<char>) -> LogLevel {
    if level == "TRACE"@ {
        LogLevel::Trace
    } else if level == "DEBUG"@ {
        LogLevel::Debug
    } else if level == "WARN"@ {
        LogLevel::Warn
    } else if level == "ERROR"@ {
        LogLevel::Error
    } else {
        LogLevel::Info
    }
}

/// The label Meilisearch writes for a level.
pub open spec fn meilisearch_label(level: LogLevel) -> Seq<char> {
    match level {
        LogLevel::Trace => "TRACE"@,
        LogLevel::Debug => "DEBUG"@,
        LogLevel::Info => "INFO"@,
        LogLevel::Warn => "WARN"@,
        LogLevel::Error => "ERROR"@,
    }
}

/// Maps Meilisearch's level label to a level.
pub fn parse_log_level(level: &str) -> (r: LogLevel)
    ensures
        r == spec_parse_log_level(level@),
{
    if same_text(level, "TRACE") {
        LogLevel::Trace
    } else if same_text(level, "DEBUG") {
        LogLevel::Debug
    } else if same_text(level, "WARN") {
        LogLevel::Warn
    } else if same_text(level, "ERROR") {
        LogLevel::Error
    } else {
        LogLevel::Info
    }
}

/// One log line of Meilisearch, read from its JSON form: the level label,
/// the target, the message, and the remaining fields as JSON text.
#[derive(Debug)]
pub struct MeilisearchLog {
    pub level: String,
    pub target: String,
    pub message: String,
    pub details: String,
}

/// A log line as it is re-emitted.
#[derive(Debug)]
pub struct LogRecord {
    /// The output of Meilisearch it came from (`stdout` or `stderr`).
    pub stream: String,
    pub level: LogLevel,
    pub target: String,
    pub message: String,
    pub details: String,
}

/// The record to emit for a line read from `stream`.
pub fn forward_line(stream: &str, log: MeilisearchLog) -> (r: LogRecord)
    ensures
        r.stream@ == stream@,
        r.level == spec_parse_log_level(log.level@),
        r.target == log.target,
        r.message == log.message,
        r.details == log.details,
{
    let level = parse_log_level(log.level.as_str());
    LogRecord {
        stream: String::from_str(stream),
        level,
        target: log.target,
        message: log.message,
        details: log.details,
    }
}

/// A line is re-emitted at the level Meilisearch labelled it with, for each
/// of Meilisearch's five labels.
pub proof fn lemma_label_round_trip(level: LogLevel)
    ensures
        spec_parse_log_level(meilisearch_label(level)) == level,
{
    reveal_strlit("TRACE");
    reveal_strlit("DEBUG");
    reveal_strlit("INFO");
    reveal_strlit("WARN");
    reveal_strlit("ERROR");
    assert("TRACE"@[0] == 'T' && "DEBUG"@[0] == 'D' && "INFO"@[0] == 'I' && "WARN"@[0] == 'W'
        && "ERROR"@[0] == 'E');
}


/// `TRACE`, `DEBUG`, `WARN` and `ERROR` give their own level; every other
/// label, `INFO` included, gives `Info`.
pub proof fn lemma_levels(label: Seq<char>)
    ensures
        label == "TRACE"@ ==> spec_parse_log_level(label) == LogLevel::Trace,
        label == "DEBUG"@ ==> spec_parse_log_level(label) == LogLevel::Debug,
        label == "WARN"@ ==> spec_parse_log_level(label) == LogLevel::Warn,
        label == "ERROR"@ ==> spec_parse_log_level(label) == LogLevel::Error,
        (label != "TRACE"@ && label != "DEBUG"@ && label != "WARN"@ && label != "ERROR"@)
            ==> spec_parse_log_level(label) == LogLevel::Info,
{
    reveal_strlit("TRACE");
    reveal_strlit("DEBUG");
    reveal_strlit("WARN");
    reveal_strlit("ERROR");
    assert("TRACE"@[0] == 'T' && "DEBUG"@[0] == 'D' && "WARN"@[0] == 'W' && "ERROR"@[0] == 'E');
}

} // verus!
