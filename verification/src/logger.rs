//! The orchestrator: filters each call by level, makes its entry under the
//! context in force, records it in the buffer and renders it for the sinks.

use vstd::prelude::*;
use vstd::string::StringExecFns;
use std::path::PathBuf;
use crate::buffer::{added, LogBuffer};
use crate::console::{console_line, console_line_text};
use crate::context::{is_hyphenated_id, LogContext, LogContextView};
use crate::document::{file_line, file_line_text};
use crate::entry::{entry_of, LogEntry, LogEntryView, LogRecord, LogRecordView};
use crate::level::LogLevel;
use crate::text::{clone_opt_text, opt_text};
use crate::timestamp::{console_time_text, representable, Timestamp};

verus! {

/// The capacity of the buffer that a new logger is given.
pub const MAX_LOG_BUFFER_SIZE: usize = 1000;

/// The path of a file, carried through to whoever opens it.
#[verifier::external_type_specification]
#[verifier::external_body]
pub struct ExPathBuf(PathBuf);

/// What one log call hands to the sinks.
#[derive(Debug)]
pub struct Dispatch {
    /// The line for the console, where the console sink is to write.
    pub console: Option<String>,
    /// The line to append to the log file, where the file sink is to write.
    pub file: Option<String>,
}

/// What a [`Dispatch`] holds, as plain text.
pub ghost struct DispatchView {
    pub console: Option<Seq<char>>,
    pub file: Option<Seq<char>>,
}

impl View for Dispatch {
    type V = DispatchView;

    open spec fn view(&self) -> DispatchView {
        DispatchView { console: opt_text(self.console), file: opt_text(self.file) }
    }
}

/// The state of a logger: its configuration, the context in force and the
/// contents of its buffer, oldest entry first.
pub ghost struct LoggerView {
    pub level: LogLevel,
    pub log_file: Option<PathBuf>,
    pub console_output: bool,
    pub file_output: bool,
    pub context: LogContextView,
    pub buffer: Seq<LogEntryView>,
    pub capacity: nat,
}

impl LoggerView {
    /// Whether a call at `level` is accepted.
    pub open spec fn enabled(self, level: LogLevel) -> bool {
        level.rank() >= self.level.rank()
    }

    /// Whether the file sink is to write: it is switched on and has a path.
    pub open spec fn file_active(self) -> bool {
        self.file_output && self.log_file is Some
    }

    /// What the console sink is handed for an entry.
    pub open spec fn console_write(self, entry: LogEntryView) -> Option<Seq<char>> {
        if self.console_output {
            Some(
                console_line_text(
                    console_time_text(entry.timestamp.0, entry.timestamp.1),
                    entry,
                ),
            )
        } else {
            None
        }
    }

    /// What the file sink is handed for an entry.
    pub open spec fn file_write(self, entry: LogEntryView) -> Option<Seq<char>> {
        if self.file_active() {
            Some(file_line_text(entry))
        } else {
            None
        }
    }

    /// The state after a call made at `timestamp`: an accepted call adds its
    /// entry to the buffer, any other call changes nothing.
    pub open spec fn logged(self, timestamp: (int, int), record: LogRecordView) -> LoggerView {
        if self.enabled(record.level) {
            LoggerView {
                buffer: added(
                    self.buffer,
                    self.capacity,
                    entry_of(timestamp, record, self.context),
                ),
                ..self
            }
        } else {
            self
        }
    }

    /// Whether `after` and `dispatch` are what a call makes of this state at
    /// some representable time.
    pub open spec fn logged_now(
        self,
        record: LogRecordView,
        after: LoggerView,
        dispatch: DispatchView,
    ) -> bool {
        exists|timestamp: (int, int)|
            {
                &&& representable(timestamp.0, timestamp.1)
                &&& after == #[trigger] self.logged(timestamp, record)
                &&& dispatch == self.dispatched(timestamp, record)
            }
    }

    /// What a call made at `timestamp` hands to the sinks: an accepted call
    /// one write for each sink that is to write, any other call nothing.
    pub open spec fn dispatched(self, timestamp: (int, int), record: LogRecordView)
        -> DispatchView {
        if self.enabled(record.level) {
            let entry = entry_of(timestamp, record, self.context);
            DispatchView { console: self.console_write(entry), file: self.file_write(entry) }
        } else {
            DispatchView { console: None, file: None }
        }
    }
}

/// A call below the minimum level leaves the logger as it was, buffer
/// included, and hands nothing to either sink.
pub proof fn lemma_rejected_call_does_nothing(
    logger: LoggerView,
    timestamp: (int, int),
    record: LogRecordView,
)
    requires
        record.level.rank() < logger.level.rank(),
    ensures
        logger.logged(timestamp, record) == logger,
        logger.dispatched(timestamp, record).console is None,
        logger.dispatched(timestamp, record).file is None,
{
}

/// A call at or above the minimum level puts exactly one entry at the end
/// of the buffer, and hands out exactly one line for each sink that is to
/// write: a console line if and only if the console sink is on, and a file
/// line if and only if the file sink is on and has a path.
pub proof fn lemma_accepted_call_writes_once(
    logger: LoggerView,
    timestamp: (int, int),
    record: LogRecordView,
)
    requires
        record.level.rank() >= logger.level.rank(),
        logger.buffer.len() <= logger.capacity,
    ensures
        logger.logged(timestamp, record).buffer == crate::buffer::last_entries(
            logger.buffer.push(entry_of(timestamp, record, logger.context)),
            logger.capacity,
        ),
        logger.buffer.len() < logger.capacity ==> logger.logged(timestamp, record).buffer
            == logger.buffer.push(entry_of(timestamp, record, logger.context)),
        logger.buffer.len() == logger.capacity && logger.capacity > 0 ==> logger.logged(
            timestamp,
            record,
        ).buffer == logger.buffer.drop_first().push(entry_of(timestamp, record, logger.context)),
        logger.dispatched(timestamp, record).console is Some <==> logger.console_output,
        logger.dispatched(timestamp, record).file is Some <==> logger.file_active(),
{
    let entry = entry_of(timestamp, record, logger.context);
    let pushed = logger.buffer.push(entry);
    if logger.buffer.len() == logger.capacity && logger.capacity > 0 {
        assert(crate::buffer::last_entries(pushed, logger.capacity)
            =~= logger.buffer.drop_first().push(entry));
    }
}

/// A property given to a context with `with_property` stands in the entry
/// of the next accepted call once that context is in force; and when the
/// context is then updated with a second property under another key, the
/// entry of the next accepted call holds both.
pub proof fn lemma_context_properties_reach_entries(
    logger: LoggerView,
    context: LogContextView,
    first: (Seq<char>, Seq<char>),
    second: (Seq<char>, Seq<char>),
    first_call: ((int, int), LogRecordView),
    second_call: ((int, int), LogRecordView),
)
    requires
        crate::property::distinct_keys(context.properties),
        first.0 != second.0,
        logger.capacity > 0,
        logger.enabled(first_call.1.level),
        logger.enabled(second_call.1.level),
    ensures
        ({
            let with_first = LogContextView {
                properties: crate::property::upsert(context.properties, first.0, first.1),
                ..context
            };
            let set = LoggerView { context: with_first, ..logger };
            let logged_once = set.logged(first_call.0, first_call.1);
            let with_both = LogContextView {
                properties: crate::property::upsert(with_first.properties, second.0, second.1),
                ..with_first
            };
            let updated = LoggerView { context: with_both, ..logged_once };
            let logged_twice = updated.logged(second_call.0, second_call.1);
            &&& logged_once.buffer.len() > 0
            &&& crate::property::lookup(logged_once.buffer.last().properties, first.0) == Some(
                first.1,
            )
            &&& logged_twice.buffer.len() > 0
            &&& crate::property::lookup(logged_twice.buffer.last().properties, first.0) == Some(
                first.1,
            )
            &&& crate::property::lookup(logged_twice.buffer.last().properties, second.0) == Some(
                second.1,
            )
        }),
{
    let with_first = crate::property::upsert(context.properties, first.0, first.1);
    crate::property::lemma_upsert_keeps_keys_distinct(context.properties, first.0, first.1);
    crate::property::lemma_lookup_after_upsert(context.properties, first.0, first.1, first.0);
    crate::property::lemma_lookup_after_upsert(with_first, second.0, second.1, first.0);
}

/// The description of a call that gives level, message and target and knows
/// no place in the source. Properties are not given call by call: an entry
/// has those of the context in force.
pub open spec fn plain_record(level: LogLevel, message: Seq<char>, target: Seq<char>)
    -> LogRecordView {
    LogRecordView { level, message, target, module: None, file: None, line: None }
}

fn make_record(level: LogLevel, message: &str, target: &str) -> (record: LogRecord)
    ensures
        record@ == plain_record(level, message@, target@),
{
    LogRecord {
        level,
        message: message.to_owned(),
        target: target.to_owned(),
        module: None,
        file: None,
        line: None,
    }
}

/// A logger: minimum level, sinks, the shared context and the buffer of
/// recent entries.
pub struct StructuredLogger {
    level: LogLevel,
    log_file: Option<PathBuf>,
    console_output: bool,
    file_output: bool,
    context: LogContext,
    buffer: LogBuffer,
}

impl View for StructuredLogger {
    type V = LoggerView;

    closed spec fn view(&self) -> LoggerView {
        LoggerView {
            level: self.level,
            log_file: self.log_file,
            console_output: self.console_output,
            file_output: self.file_output,
            context: self.context@,
            buffer: self.buffer@,
            capacity: self.buffer.capacity(),
        }
    }
}

impl StructuredLogger {
    #[verifier::type_invariant]
    spec fn buffer_within_capacity(self) -> bool {
        self.buffer@.len() <= self.buffer.capacity()
    }

    /// The context in force.
    pub closed spec fn context_value(&self) -> LogContext {
        self.context
    }

    /// A logger that accepts `Debug` and above, writes to the console and to
    /// no file, with a fresh context and an empty buffer of
    /// [`MAX_LOG_BUFFER_SIZE`] entries.
    pub fn new() -> (logger: Self)
        ensures
            logger@.level == LogLevel::Debug,
            logger@.log_file is None,
            logger@.console_output,
            !logger@.file_output,
            logger@.buffer == Seq::<LogEntryView>::empty(),
            logger@.capacity == MAX_LOG_BUFFER_SIZE,
            logger@.context.correlation_id matches Some(id) && is_hyphenated_id(id),
            logger@.context.user_id is None,
            logger@.context.session_id is None,
            logger@.context.properties.len() == 0,
    {
        StructuredLogger::with_capacity(MAX_LOG_BUFFER_SIZE)
    }

    /// A logger like that of [`Self::new`], its buffer made for `capacity`
    /// entries.
    pub fn with_capacity(capacity: usize) -> (logger: Self)
        ensures
            logger@.level == LogLevel::Debug,
            logger@.log_file is None,
            logger@.console_output,
            !logger@.file_output,
            logger@.buffer == Seq::<LogEntryView>::empty(),
            logger@.capacity == capacity,
            logger@.context.correlation_id matches Some(id) && is_hyphenated_id(id),
            logger@.context.user_id is None,
            logger@.context.session_id is None,
            logger@.context.properties.len() == 0,
    {
        StructuredLogger {
            level: LogLevel::Debug,
            log_file: None,
            console_output: true,
            file_output: false,
            context: LogContext::new(),
            buffer: LogBuffer::new(capacity),
        }
    }

    /// The logger with its minimum level set.
    pub fn with_level(self, level: LogLevel) -> (logger: Self)
        ensures
            logger@ == (LoggerView { level, ..self@ }),
    {
        proof {
            use_type_invariant(&self);
        }
        let mut logger = self;
        logger.level = level;
        logger
    }

    /// The logger with the console sink switched on or off.
    pub fn with_console_output(self, enabled: bool) -> (logger: Self)
        ensures
            logger@ == (LoggerView { console_output: enabled, ..self@ }),
    {
        proof {
            use_type_invariant(&self);
        }
        let mut logger = self;
        logger.console_output = enabled;
        logger
    }

    /// The logger with the file sink switched on, to append to `log_file`.
    pub fn with_file_output(self, log_file: PathBuf) -> (logger: Self)
        ensures
            logger@ == (LoggerView { log_file: Some(log_file), file_output: true, ..self@ }),
    {
        proof {
            use_type_invariant(&self);
        }
        let mut logger = self;
        logger.log_file = Some(log_file);
        logger.file_output = true;
        logger
    }

    /// Replaces the context in force.
    pub fn set_context(&mut self, context: LogContext)
        ensures
            final(self)@ == (LoggerView { context: context@, ..old(self)@ }),
            final(self).context_value() == context,
    {
        proof {
            use_type_invariant(&*self);
        }
        self.context = context;
    }

    /// Puts in force what `f` makes of the context in force. Nothing else of
    /// the logger changes.
    pub fn update_context<F: FnOnce(LogContext) -> LogContext>(&mut self, f: F)
        requires
            f.requires((old(self).context_value(),)),
        ensures
            f.ensures((old(self).context_value(),), final(self).context_value()),
            final(self)@ == (LoggerView { context: final(self).context_value()@, ..old(self)@ }),
    {
        proof {
            use_type_invariant(&*self);
        }
        let mut context = LogContext {
            correlation_id: None,
            user_id: None,
            session_id: None,
            properties: crate::property::Properties::new(),
        };
        std::mem::swap(&mut self.context, &mut context);
        self.context = f(context);
    }

    /// The context in force.
    pub fn get_context(&self) -> (context: &LogContext)
        ensures
            *context == self.context_value(),
            context@ == self@.context,
    {
        &self.context
    }

    /// The buffer of recent entries, to read.
    pub fn get_buffer(&self) -> (buffer: &LogBuffer)
        ensures
            buffer@ == self@.buffer,
            buffer.capacity() == self@.capacity,
    {
        &self.buffer
    }

    /// The minimum level.
    pub fn level(&self) -> (level: LogLevel)
        ensures
            level == self@.level,
    {
        self.level
    }

    /// The file that the file sink appends to, where one is set.
    pub fn log_file(&self) -> (path: Option<&PathBuf>)
        ensures
            match path {
                Some(p) => self@.log_file == Some(*p),
                None => self@.log_file is None,
            },
    {
        self.log_file.as_ref()
    }

    /// Whether the console sink is switched on.
    pub fn console_output(&self) -> (enabled: bool)
        ensures
            enabled == self@.console_output,
    {
        self.console_output
    }

    /// Whether the file sink is switched on.
    pub fn file_output(&self) -> (enabled: bool)
        ensures
            enabled == self@.file_output,
    {
        self.file_output
    }

    /// Drops every entry of the buffer.
    pub fn clear_buffer(&mut self)
        ensures
            final(self)@ == (LoggerView { buffer: Seq::<LogEntryView>::empty(), ..old(self)@ }),
    {
        let mut buffer = LogBuffer::new(0);
        std::mem::swap(&mut self.buffer, &mut buffer);
        buffer.clear();
        self.buffer = buffer;
    }

    /// Whether a call at `level` is accepted: the level is at or above the
    /// minimum.
    pub fn enabled(&self, level: LogLevel) -> (accepted: bool)
        ensures
            accepted == self@.enabled(level),
    {
        level.at_least(self.level)
    }

    /// Makes the entry of a call made at `timestamp`, under the context in force.
    pub fn format_log_entry(&self, timestamp: Timestamp, record: &LogRecord) -> (entry: LogEntry)
        ensures
            entry@ == entry_of(timestamp@, record@, self@.context),
    {
        LogEntry {
            timestamp,
            level: record.level.name().to_owned(),
            message: record.message.clone(),
            target: record.target.clone(),
            module: clone_opt_text(&record.module),
            file: clone_opt_text(&record.file),
            line: record.line,
            correlation_id: clone_opt_text(&self.context.correlation_id),
            user_id: clone_opt_text(&self.context.user_id),
            session_id: clone_opt_text(&self.context.session_id),
            properties: self.context.properties.clone(),
            exception: None,
        }
    }

    /// The console sink: the line for `entry`, where the sink is switched on.
    pub fn write_to_console(&self, entry: &LogEntry) -> (line: Option<String>)
        ensures
            opt_text(line) == self@.console_write(entry@),
    {
        if !self.console_output {
            return None;
        }
        Some(console_line(entry))
    }

    /// The file sink: the line to append for `entry`, where the sink is
    /// switched on and has a path.
    pub fn write_to_file(&self, entry: &LogEntry) -> (line: Option<String>)
        ensures
            opt_text(line) == self@.file_write(entry@),
    {
        if !self.file_output {
            return None;
        }
        if self.log_file.is_none() {
            return None;
        }
        Some(file_line(entry))
    }

    /// Records an entry in the buffer; the oldest entry leaves where the
    /// buffer is full.
    pub fn add_to_buffer(&mut self, entry: LogEntry)
        ensures
            final(self)@ == (LoggerView {
                buffer: added(old(self)@.buffer, old(self)@.capacity, entry@),
                ..old(self)@
            }),
            final(self)@.buffer.len() <= final(self)@.capacity,
    {
        let mut buffer = LogBuffer::new(0);
        std::mem::swap(&mut self.buffer, &mut buffer);
        buffer.add_log(entry);
        self.buffer = buffer;
    }

    /// One log call made at `timestamp`. A call below the minimum level
    /// changes nothing and hands nothing to any sink. An accepted call makes
    /// one entry under the context in force, records it in the buffer, then
    /// renders it for the console sink and for the file sink, each where it
    /// is to write.
    pub fn log_at(&mut self, timestamp: Timestamp, record: &LogRecord) -> (dispatch: Dispatch)
        ensures
            final(self)@ == old(self)@.logged(timestamp@, record@),
            dispatch@ == old(self)@.dispatched(timestamp@, record@),
            final(self)@.buffer.len() <= final(self)@.capacity,
    {
        if !self.enabled(record.level) {
            proof {
                use_type_invariant(&*self);
            }
            return Dispatch { console: None, file: None };
        }
        let entry = self.format_log_entry(timestamp, record);
        self.add_to_buffer(entry.clone());
        let console = self.write_to_console(&entry);
        let file = self.write_to_file(&entry);
        Dispatch { console, file }
    }

    /// One log call, made now. A call below the minimum level is dropped
    /// before the clock is read. What an accepted call does is what
    /// [`Self::log_at`] does at the time that the clock gives.
    pub fn log(&mut self, record: &LogRecord) -> (dispatch: Dispatch)
        ensures
            old(self)@.logged_now(record@, final(self)@, dispatch@),
            !old(self)@.enabled(record@.level) ==> final(self)@ == old(self)@ && dispatch@ == (
            DispatchView { console: None, file: None }),
            final(self)@.buffer.len() <= final(self)@.capacity,
    {
        if !self.enabled(record.level) {
            proof {
                use_type_invariant(&*self);
            }
            assert(representable(0, 0) && self@ == old(self)@.logged((0, 0), record@));
            return Dispatch { console: None, file: None };
        }
        let timestamp = Timestamp::now();
        let ghost at = timestamp@;
        let dispatch = self.log_at(timestamp, record);
        assert(self@ == old(self)@.logged(at, record@));
        dispatch
    }

    /// A call at `Trace` with no source place.
    pub fn trace(&mut self, message: &str, target: &str) -> (dispatch: Dispatch)
        ensures
            old(self)@.logged_now(
                plain_record(LogLevel::Trace, message@, target@),
                final(self)@,
                dispatch@,
            ),
    {
        self.log(&make_record(LogLevel::Trace, message, target))
    }

    /// A call at `Debug` with no source place.
    pub fn debug(&mut self, message: &str, target: &str) -> (dispatch: Dispatch)
        ensures
            old(self)@.logged_now(
                plain_record(LogLevel::Debug, message@, target@),
                final(self)@,
                dispatch@,
            ),
    {
        self.log(&make_record(LogLevel::Debug, message, target))
    }

    /// A call at `Info` with no source place.
    pub fn info(&mut self, message: &str, target: &str) -> (dispatch: Dispatch)
        ensures
            old(self)@.logged_now(
                plain_record(LogLevel::Info, message@, target@),
                final(self)@,
                dispatch@,
            ),
    {
        self.log(&make_record(LogLevel::Info, message, target))
    }

    /// A call at `Warn` with no source place.
    pub fn warn(&mut self, message: &str, target: &str) -> (dispatch: Dispatch)
        ensures
            old(self)@.logged_now(
                plain_record(LogLevel::Warn, message@, target@),
                final(self)@,
                dispatch@,
            ),
    {
        self.log(&make_record(LogLevel::Warn, message, target))
    }

    /// A call at `Error` with no source place.
    pub fn error(&mut self, message: &str, target: &str) -> (dispatch: Dispatch)
        ensures
            old(self)@.logged_now(
                plain_record(LogLevel::Error, message@, target@),
                final(self)@,
                dispatch@,
            ),
    {
        self.log(&make_record(LogLevel::Error, message, target))
    }

    /// A call at `Error` that reports a failure: the message is followed by
    /// a colon, a space and the description of the failure.
    pub fn error_with_exception(&mut self, message: &str, failure: &str, target: &str) -> (dispatch:
        Dispatch)
        ensures
            old(self)@.logged_now(
                plain_record(LogLevel::Error, message@ + ": "@ + failure@, target@),
                final(self)@,
                dispatch@,
            ),
    {
        let mut text = String::from_str(message);
        text.append(": ");
        text.append(failure);
        self.log(&make_record(LogLevel::Error, text.as_str(), target))
    }

    /// Nothing is held back: every line is handed out by the call that made
    /// it, so there is nothing to flush.
    pub fn flush(&self) {
    }
}

} // verus!
