//! The record made for each accepted log call, and the plain description of
//! the call that it is made from.

use vstd::prelude::*;
use crate::context::LogContextView;
use crate::level::LogLevel;
use crate::property::{Properties, PropertiesView};
use crate::text::{clone_opt_text, opt_text};
use crate::timestamp::Timestamp;

verus! {

/// One log call as its site describes it: severity, message, the subsystem
/// it belongs to and, where known, the place in the source.
#[derive(Debug)]
pub struct LogRecord {
    pub level: LogLevel,
    pub message: String,
    pub target: String,
    pub module: Option<String>,
    pub file: Option<String>,
    pub line: Option<u32>,
}

/// What a [`LogRecord`] holds, as plain text.
pub ghost struct LogRecordView {
    pub level: LogLevel,
    pub message: Seq<char>,
    pub target: Seq<char>,
    pub module: Option<Seq<char>>,
    pub file: Option<Seq<char>>,
    pub line: Option<u32>,
}

impl View for LogRecord {
    type V = LogRecordView;

    open spec fn view(&self) -> LogRecordView {
        LogRecordView {
            level: self.level,
            message: self.message@,
            target: self.target@,
            module: opt_text(self.module),
            file: opt_text(self.file),
            line: self.line,
        }
    }
}

/// The record of one accepted log call: what the call said, when, and the
/// context that was in force.
#[derive(Debug)]
pub struct LogEntry {
    pub timestamp: Timestamp,
    pub level: String,
    pub message: String,
    pub target: String,
    pub module: Option<String>,
    pub file: Option<String>,
    pub line: Option<u32>,
    pub correlation_id: Option<String>,
    pub user_id: Option<String>,
    pub session_id: Option<String>,
    pub properties: Properties,
    pub exception: Option<String>,
}

/// What a [`LogEntry`] holds, as plain text and numbers.
pub ghost struct LogEntryView {
    pub timestamp: (int, int),
    pub level: Seq<char>,
    pub message: Seq<char>,
    pub target: Seq<char>,
    pub module: Option<Seq<char>>,
    pub file: Option<Seq<char>>,
    pub line: Option<u32>,
    pub correlation_id: Option<Seq<char>>,
    pub user_id: Option<Seq<char>>,
    pub session_id: Option<Seq<char>>,
    pub properties: PropertiesView,
    pub exception: Option<Seq<char>>,
}

impl View for LogEntry {
    type V = LogEntryView;

    open spec fn view(&self) -> LogEntryView {
        LogEntryView {
            timestamp: self.timestamp@,
            level: self.level@,
            message: self.message@,
            target: self.target@,
            module: opt_text(self.module),
            file: opt_text(self.file),
            line: self.line,
            correlation_id: opt_text(self.correlation_id),
            user_id: opt_text(self.user_id),
            session_id: opt_text(self.session_id),
            properties: self.properties@,
            exception: opt_text(self.exception),
        }
    }
}

impl Clone for LogEntry {
    fn clone(&self) -> (copy: Self)
        ensures
            copy@ == self@,
    {
        LogEntry {
            timestamp: self.timestamp.clone(),
            level: self.level.clone(),
            message: self.message.clone(),
            target: self.target.clone(),
            module: clone_opt_text(&self.module),
            file: clone_opt_text(&self.file),
            line: self.line,
            correlation_id: clone_opt_text(&self.correlation_id),
            user_id: clone_opt_text(&self.user_id),
            session_id: clone_opt_text(&self.session_id),
            properties: self.properties.clone(),
            exception: clone_opt_text(&self.exception),
        }
    }
}

/// The entry for a call made at `timestamp` under `context`: the level by its
/// name, message, target and source place from the call, the identifiers and
/// properties from the context, and no exception.
pub open spec fn entry_of(timestamp: (int, int), record: LogRecordView, context: LogContextView)
    -> LogEntryView {
    LogEntryView {
        timestamp,
        level: record.level.name_text(),
        message: record.message,
        target: record.target,
        module: record.module,
        file: record.file,
        line: record.line,
        correlation_id: context.correlation_id,
        user_id: context.user_id,
        session_id: context.session_id,
        properties: context.properties,
        exception: None,
    }
}

/// The views of a run of entries, in order.
pub open spec fn entry_views(entries: Seq<LogEntry>) -> Seq<LogEntryView> {
    entries.map_values(|entry: LogEntry| entry@)
}

} // verus!
