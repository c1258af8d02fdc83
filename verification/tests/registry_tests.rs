use butler_logger::entry::LogRecord;
use butler_logger::level::LogLevel;
use butler_logger::logger::{StructuredLogger, MAX_LOG_BUFFER_SIZE};
use butler_logger::registry::{init_logger, ConfigError, LoggerSlot};
use std::path::PathBuf;

fn info(message: &str) -> LogRecord {
    LogRecord {
        level: LogLevel::Info,
        message: message.to_string(),
        target: "app".to_string(),
        module: None,
        file: None,
        line: None,
    }
}

#[test]
fn new_slot_is_empty() {
    let slot = LoggerSlot::new();
    assert!(!slot.is_installed());
    assert!(slot.logger().is_none());
}

#[test]
fn first_install_succeeds_and_second_is_refused() {
    let mut slot = LoggerSlot::new();
    assert_eq!(slot.install(StructuredLogger::new().with_level(LogLevel::Warn)), Ok(()));
    assert!(slot.is_installed());
    assert_eq!(
        slot.install(StructuredLogger::new().with_level(LogLevel::Trace)),
        Err(ConfigError::AlreadyInstalled)
    );
    assert_eq!(slot.logger().unwrap().level(), LogLevel::Warn);
}

#[test]
fn log_without_a_logger_does_nothing() {
    let mut slot = LoggerSlot::new();
    let dispatch = slot.log(&info("m"));
    assert!(dispatch.console.is_none());
    assert_eq!(dispatch.file, None);
    assert!(!slot.is_installed());
}

#[test]
fn log_reaches_the_installed_logger() {
    let mut slot = LoggerSlot::new();
    slot.install(StructuredLogger::new()).unwrap();
    let dispatch = slot.log(&info("m"));
    assert!(dispatch.console.unwrap().contains(" m"));
    let entries = slot.logger().unwrap().get_buffer().get_logs();
    assert_eq!(entries.len(), 1);
    assert_eq!(entries[0].message, "m");
    slot.clear_buffer();
    assert!(slot.logger().unwrap().get_buffer().is_empty());
}

#[test]
fn clear_buffer_without_a_logger_does_nothing() {
    let mut slot = LoggerSlot::new();
    slot.clear_buffer();
    assert!(!slot.is_installed());
}

#[test]
fn init_logger_installs_the_process_logger() {
    let mut slot = LoggerSlot::new();
    assert_eq!(init_logger(&mut slot, PathBuf::from("data/logs/butler.log")), Ok(()));
    let logger = slot.logger().unwrap();
    assert_eq!(logger.level(), LogLevel::Debug);
    assert!(logger.console_output());
    assert!(logger.file_output());
    assert_eq!(logger.log_file(), Some(&PathBuf::from("data/logs/butler.log")));
    assert!(logger.get_buffer().is_empty());
    assert_eq!(logger.get_buffer().max_size(), MAX_LOG_BUFFER_SIZE);
}

#[test]
fn init_logger_twice_is_a_configuration_error() {
    let mut slot = LoggerSlot::new();
    init_logger(&mut slot, PathBuf::from("a.log")).unwrap();
    slot.log(&info("kept"));
    assert_eq!(
        init_logger(&mut slot, PathBuf::from("b.log")),
        Err(ConfigError::AlreadyInstalled)
    );
    let logger = slot.logger().unwrap();
    assert_eq!(logger.log_file(), Some(&PathBuf::from("a.log")));
    assert_eq!(logger.get_buffer().len(), 1);
}

#[test]
fn context_is_set_and_updated_through_the_slot() {
    let mut slot = LoggerSlot::new();
    slot.set_context(butler_logger::context::LogContext::new());
    slot.update_context(|context| context.with_user_id("nobody".to_string()));
    assert!(!slot.is_installed());
    slot.install(StructuredLogger::new().with_console_output(false)).unwrap();
    slot.set_context(
        butler_logger::context::LogContext::new().with_correlation_id("c".to_string()),
    );
    slot.update_context(|context| context.with_user_id("u".to_string()));
    slot.log(&info("m"));
    let entries = slot.logger().unwrap().get_buffer().get_logs();
    assert_eq!(entries[0].correlation_id.as_deref(), Some("c"));
    assert_eq!(entries[0].user_id.as_deref(), Some("u"));
}
