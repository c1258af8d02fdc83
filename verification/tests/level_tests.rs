use butler_logger::level::LogLevel;

const ALL: [LogLevel; 5] =
    [LogLevel::Trace, LogLevel::Debug, LogLevel::Info, LogLevel::Warn, LogLevel::Error];

#[test]
fn levels_are_ordered_from_trace_to_error() {
    for (i, a) in ALL.iter().enumerate() {
        for (j, b) in ALL.iter().enumerate() {
            assert_eq!(a.at_least(*b), i >= j);
        }
    }
}

#[test]
fn level_names_are_upper_case() {
    assert_eq!(LogLevel::Trace.name(), "TRACE");
    assert_eq!(LogLevel::Debug.name(), "DEBUG");
    assert_eq!(LogLevel::Info.name(), "INFO");
    assert_eq!(LogLevel::Warn.name(), "WARN");
    assert_eq!(LogLevel::Error.name(), "ERROR");
}

#[test]
fn names_read_back_to_their_levels() {
    for level in ALL {
        assert_eq!(LogLevel::from_name(level.name()), level);
    }
}

#[test]
fn unrecognized_level_name_is_info() {
    assert_eq!(LogLevel::from_name("FOO"), LogLevel::Info);
    assert_eq!(LogLevel::from_name(""), LogLevel::Info);
    assert_eq!(LogLevel::from_name("error"), LogLevel::Info);
    assert_eq!(LogLevel::from_name("ERROR "), LogLevel::Info);
    assert_eq!(LogLevel::from_name("ERRORS"), LogLevel::Info);
}
