//! Entries that arrive from the user interface: each is read into a native
//! log call and marked with its origin.

use vstd::prelude::*;
use vstd::string::StringExecFns;
use crate::entry::{LogRecord, LogRecordView};
use crate::level::{level_from_name, LogLevel};
use crate::logger::{Dispatch, StructuredLogger};
use crate::property::Properties;
use crate::text::{clone_opt_text, opt_text};

verus! {

/// A log entry as the user interface submits it: the fields of an entry, the
/// level by its name.
#[derive(Debug)]
pub struct FrontendLogEntry {
    pub timestamp: String,
    pub level: String,
    pub message: String,
    pub target: String,
    pub module: Option<String>,
    pub file: Option<String>,
    pub line: Option<u32>,
    pub correlation_id: Option<String>,
    pub user_id: Option<String>,
    pub session_id: Option<String>,
    pub properties: Option<Properties>,
    pub exception: Option<String>,
}

/// The marker that begins the message of every entry that came from the
/// user interface.
pub open spec fn origin_marker() -> Seq<char> {
    "[Frontend] "@
}

impl FrontendLogEntry {
    /// The native call that the entry is read into: the level that its name
    /// stands for (`Info` for a name that stands for none) and the message
    /// behind the origin marker. Target, module, file and line are those that
    /// the user interface submitted, so that the entry points at the place
    /// in the interface that logged it, not at the code that took it in.
    pub open spec fn record(&self) -> LogRecordView {
        LogRecordView {
            level: level_from_name(self.level@),
            message: origin_marker() + self.message@,
            target: self.target@,
            module: opt_text(self.module),
            file: opt_text(self.file),
            line: self.line,
        }
    }

    /// Reads the entry into a native call.
    pub fn to_record(&self) -> (record: LogRecord)
        ensures
            record@ == self.record(),
    {
        let mut message = String::from_str("[Frontend] ");
        message.append(self.message.as_str());
        LogRecord {
            level: LogLevel::from_name(self.level.as_str()),
            message,
            target: self.target.clone(),
            module: clone_opt_text(&self.module),
            file: clone_opt_text(&self.file),
            line: self.line,
        }
    }
}

/// Takes in an entry from the user interface: it is logged as the native
/// call that it is read into, whatever its level name.
pub fn log_entry(logger: &mut StructuredLogger, entry: &FrontendLogEntry) -> (dispatch: Dispatch)
    ensures
        old(logger)@.logged_now(entry.record(), final(logger)@, dispatch@),
{
    let record = entry.to_record();
    logger.log(&record)
}

} // verus!
