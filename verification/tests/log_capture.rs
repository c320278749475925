use tama_core::log_buffer::{LogBuffer, LogLevel};
use tama_core::log_capture::{
    clear, console_label, level_of_record, recent_entries, recent_log_entries, set_enabled,
    set_min_level, CaptureLogger, Level,
};

#[test]
fn the_logger_lets_pass_what_is_at_least_as_severe_as_its_level() {
    let logger = CaptureLogger::new(Level::Info);
    assert_eq!(logger.max_level(), Level::Info);
    assert!(logger.enabled(Level::Error));
    assert!(logger.enabled(Level::Warn));
    assert!(logger.enabled(Level::Info));
    assert!(!logger.enabled(Level::Debug));
    assert!(!logger.enabled(Level::Trace));
    assert!(CaptureLogger::new(Level::Trace).enabled(Level::Trace));
    assert!(!CaptureLogger::new(Level::Error).enabled(Level::Warn));
}

#[test]
fn only_warnings_and_worse_are_stored() {
    let logger = CaptureLogger::new(Level::Trace);
    let mut buffer = LogBuffer::new();
    set_min_level(&mut buffer, LogLevel::Trace);
    assert!(logger.log(&mut buffer, "app", Level::Trace, "t"));
    assert!(logger.log(&mut buffer, "app", Level::Debug, "d"));
    assert!(logger.log(&mut buffer, "app", Level::Info, "i"));
    assert!(buffer.is_empty());
    assert!(logger.log(&mut buffer, "app", Level::Warn, "w"));
    assert!(logger.log(&mut buffer, "app", Level::Error, "e"));
    let stored = recent_entries(&buffer, 10);
    assert_eq!(
        stored,
        vec![(LogLevel::Error, "e".to_string()), (LogLevel::Warn, "w".to_string())]
    );
}

#[test]
fn a_record_for_the_notice_target_is_stored_as_notice() {
    let logger = CaptureLogger::new(Level::Info);
    let mut buffer = LogBuffer::new();
    assert!(logger.log(&mut buffer, "NOTICE", Level::Error, "look"));
    assert_eq!(recent_entries(&buffer, 1), vec![(LogLevel::Notice, "look".to_string())]);
    assert_eq!(level_of_record("NOTICE", Level::Info), LogLevel::Notice);
    assert_eq!(level_of_record("notice", Level::Info), LogLevel::Info);
    assert_eq!(level_of_record("NOTICE ", Level::Warn), LogLevel::Warn);
    assert_eq!(level_of_record("app", Level::Error), LogLevel::Error);
    assert_eq!(level_of_record("app", Level::Debug), LogLevel::Debug);
    assert_eq!(level_of_record("app", Level::Trace), LogLevel::Trace);
}

#[test]
fn a_record_that_the_logger_does_not_let_pass_is_dropped() {
    let logger = CaptureLogger::new(Level::Error);
    let mut buffer = LogBuffer::new();
    assert!(!logger.log(&mut buffer, "app", Level::Warn, "w"));
    assert!(buffer.is_empty());
    assert!(logger.log(&mut buffer, "app", Level::Error, "e"));
    assert_eq!(buffer.len(), 1);
}

#[test]
fn console_labels() {
    assert_eq!(console_label("NOTICE", Level::Error), "NOTICE");
    assert_eq!(console_label("app", Level::Error), "ERROR");
    assert_eq!(console_label("app", Level::Warn), "WARN");
    assert_eq!(console_label("app", Level::Info), "INFO");
    assert_eq!(console_label("app", Level::Debug), "DEBUG");
    assert_eq!(console_label("app", Level::Trace), "TRACE");
}

#[test]
fn levels_map_to_buffer_levels() {
    assert_eq!(Level::Error.log_level(), LogLevel::Error);
    assert_eq!(Level::Warn.log_level(), LogLevel::Warn);
    assert_eq!(Level::Info.log_level(), LogLevel::Info);
    assert_eq!(Level::Debug.log_level(), LogLevel::Debug);
    assert_eq!(Level::Trace.log_level(), LogLevel::Trace);
    assert_eq!(Level::Error.verbosity(), 1);
    assert_eq!(Level::Trace.verbosity(), 5);
}

#[test]
fn snapshots_copy_the_newest_entries() {
    let mut buffer = LogBuffer::new();
    buffer.push(LogLevel::Warn, "first");
    buffer.push(LogLevel::Error, "second");
    buffer.push(LogLevel::Notice, "third");
    let copies = recent_log_entries(&buffer, 2);
    assert_eq!(copies.len(), 2);
    assert_eq!(copies[0].level, LogLevel::Notice);
    assert_eq!(copies[0].as_str(), "third");
    assert_eq!(copies[1].level, LogLevel::Error);
    assert_eq!(copies[1].as_str(), "second");
    assert_eq!(recent_entries(&buffer, 5).len(), 3);
    assert!(recent_entries(&buffer, 0).is_empty());
}

#[test]
fn buffer_settings_through_the_capture_functions() {
    let mut buffer = LogBuffer::new();
    buffer.push(LogLevel::Warn, "w");
    set_min_level(&mut buffer, LogLevel::Error);
    assert_eq!(buffer.min_level(), LogLevel::Error);
    assert_eq!(buffer.len(), 1);
    set_enabled(&mut buffer, false);
    assert!(!buffer.is_enabled());
    clear(&mut buffer);
    assert!(buffer.is_empty());
    assert_eq!(buffer.min_level(), LogLevel::Error);
    assert!(!buffer.is_enabled());
}
