//! The place where a process keeps its one logger: empty until a logger is
//! installed, and then holding that logger for good.

use vstd::prelude::*;
use std::path::PathBuf;
use crate::context::{is_hyphenated_id, LogContext};
use crate::entry::{LogEntryView, LogRecord};
use crate::level::LogLevel;
use crate::logger::{
    Dispatch,
    DispatchView,
    LoggerView,
    StructuredLogger,
    MAX_LOG_BUFFER_SIZE,
};

verus! {

/// A fault in how the process sets up its logging.
#[derive(Debug, Clone, Copy, PartialEq, Eq, Structural)]
pub enum ConfigError {
    /// A logger is installed already.
    AlreadyInstalled,
}

/// The slot for the logger of a process.
pub struct LoggerSlot {
    logger: Option<StructuredLogger>,
}

impl View for LoggerSlot {
    type V = Option<LoggerView>;

    /// The state of the installed logger, where one is installed.
    closed spec fn view(&self) -> Option<LoggerView> {
        match self.logger {
            Some(logger) => Some(logger@),
            None => None,
        }
    }
}

impl LoggerSlot {
    /// The installed logger, where one is installed.
    pub closed spec fn installed(&self) -> Option<StructuredLogger> {
        self.logger
    }

    /// A slot with no logger installed.
    pub fn new() -> (slot: Self)
        ensures
            slot@ is None,
    {
        LoggerSlot { logger: None }
    }

    /// Whether a logger is installed.
    pub fn is_installed(&self) -> (installed: bool)
        ensures
            installed == (self@ is Some),
    {
        self.logger.is_some()
    }

    /// Installs `logger`, once: into an empty slot it goes, and the slot
    /// holds it from then on; a second logger is refused and the first stays.
    pub fn install(&mut self, logger: StructuredLogger) -> (outcome: Result<(), ConfigError>)
        ensures
            old(self)@ is None ==> outcome is Ok && final(self)@ == Some(logger@),
            old(self)@ is Some ==> outcome == Err::<(), ConfigError>(ConfigError::AlreadyInstalled)
                && final(self)@ == old(self)@,
    {
        if self.logger.is_some() {
            return Err(ConfigError::AlreadyInstalled);
        }
        self.logger = Some(logger);
        Ok(())
    }

    /// The installed logger, to read.
    pub fn logger(&self) -> (logger: Option<&StructuredLogger>)
        ensures
            match logger {
                Some(installed) => self@ == Some(installed@),
                None => self@ is None,
            },
    {
        self.logger.as_ref()
    }

    /// One log call through the slot: the installed logger takes it; with no
    /// logger installed nothing happens.
    pub fn log(&mut self, record: &LogRecord) -> (dispatch: Dispatch)
        ensures
            match old(self)@ {
                Some(before) => final(self)@ matches Some(after) && before.logged_now(
                    record@,
                    after,
                    dispatch@,
                ),
                None => final(self)@ is None && dispatch@ == (DispatchView {
                    console: None,
                    file: None,
                }),
            },
    {
        let mut taken: Option<StructuredLogger> = None;
        std::mem::swap(&mut self.logger, &mut taken);
        match taken {
            Some(logger) => {
                let mut logger = logger;
                let dispatch = logger.log(record);
                self.logger = Some(logger);
                dispatch
            },
            None => Dispatch { console: None, file: None },
        }
    }

    /// Replaces the context of the installed logger; with no logger
    /// installed nothing happens.
    pub fn set_context(&mut self, context: LogContext)
        ensures
            match old(self)@ {
                Some(before) => final(self)@ == Some(LoggerView { context: context@, ..before }),
                None => final(self)@ is None,
            },
    {
        let mut taken: Option<StructuredLogger> = None;
        std::mem::swap(&mut self.logger, &mut taken);
        match taken {
            Some(logger) => {
                let mut logger = logger;
                logger.set_context(context);
                self.logger = Some(logger);
            },
            None => {},
        }
    }

    /// Puts in force, for the installed logger, what `f` makes of its
    /// context; with no logger installed `f` is not called and nothing
    /// happens.
    pub fn update_context<F: FnOnce(LogContext) -> LogContext>(&mut self, f: F)
        requires
            old(self).installed() matches Some(logger) ==> f.requires((logger.context_value(),)),
        ensures
            match old(self).installed() {
                Some(before) => final(self).installed() matches Some(after) && f.ensures(
                    (before.context_value(),),
                    after.context_value(),
                ) && after@ == (LoggerView { context: after.context_value()@, ..before@ }),
                None => final(self).installed() is None,
            },
    {
        let mut taken: Option<StructuredLogger> = None;
        std::mem::swap(&mut self.logger, &mut taken);
        match taken {
            Some(logger) => {
                let mut logger = logger;
                logger.update_context(f);
                self.logger = Some(logger);
            },
            None => {},
        }
    }

    /// Drops every entry of the installed logger's buffer.
    pub fn clear_buffer(&mut self)
        ensures
            match old(self)@ {
                Some(before) => final(self)@ == Some(
                    LoggerView { buffer: Seq::<LogEntryView>::empty(), ..before },
                ),
                None => final(self)@ is None,
            },
    {
        let mut taken: Option<StructuredLogger> = None;
        std::mem::swap(&mut self.logger, &mut taken);
        match taken {
            Some(logger) => {
                let mut logger = logger;
                logger.clear_buffer();
                self.logger = Some(logger);
            },
            None => {},
        }
    }
}

/// Sets up the logging of a process: a logger that accepts `Debug` and
/// above and writes to the console and to `log_file` is installed in the
/// slot. Where the slot holds a logger already, that is an error and
/// nothing changes.
pub fn init_logger(slot: &mut LoggerSlot, log_file: PathBuf) -> (outcome: Result<(), ConfigError>)
    ensures
        old(slot)@ is Some ==> outcome == Err::<(), ConfigError>(ConfigError::AlreadyInstalled)
            && final(slot)@ == old(slot)@,
        old(slot)@ is None ==> outcome is Ok && final(slot)@ is Some,
        old(slot)@ is None ==> ({
            let logger = final(slot)@->0;
            &&& logger.level == LogLevel::Debug
            &&& logger.console_output
            &&& logger.file_output
            &&& logger.log_file == Some(log_file)
            &&& logger.buffer == Seq::<LogEntryView>::empty()
            &&& logger.capacity == MAX_LOG_BUFFER_SIZE
            &&& logger.context.correlation_id matches Some(id) && is_hyphenated_id(id)
            &&& logger.context.user_id is None
            &&& logger.context.session_id is None
            &&& logger.context.properties.len() == 0
        }),
{
    if slot.is_installed() {
        return Err(ConfigError::AlreadyInstalled);
    }
    let logger = StructuredLogger::new().with_level(LogLevel::Debug).with_console_output(
        true,
    ).with_file_output(log_file);
    slot.install(logger)
}

} // verus!
