use psp_logger::{
    frame, Level, LevelFilter, OutputStream, PspLogger, PspLoggerConfig, SetLoggerError,
};

const LEVELS: [Level; 5] = [Level::Error, Level::Warn, Level::Info, Level::Debug, Level::Trace];

fn debug_and_info_to_stdout() -> PspLoggerConfig {
    PspLoggerConfig::new(LevelFilter::Debug)
        .with_debug_stream(OutputStream::StdOut)
        .with_info_stream(OutputStream::StdOut)
}

#[test]
fn frame_appends_line_feed_and_zero() {
    assert_eq!(frame("ready"), b"ready\n\0".to_vec());
    assert_eq!(frame("ready"), vec![0x72u8, 0x65, 0x61, 0x64, 0x79, 0x0A, 0x00]);
}

#[test]
fn frame_of_the_empty_message_is_the_two_closing_bytes() {
    assert_eq!(frame(""), vec![0x0Au8, 0x00]);
}

#[test]
fn frame_writes_the_message_in_utf8() {
    assert_eq!(frame("h\u{e9}"), vec![0x68u8, 0xC3, 0xA9, 0x0A, 0x00]);
    assert_eq!(frame("\u{20ac}"), vec![0xE2u8, 0x82, 0xAC, 0x0A, 0x00]);
    assert_eq!(frame("\u{1F600}"), vec![0xF0u8, 0x9F, 0x98, 0x80, 0x0A, 0x00]);
}

#[test]
fn frame_keeps_bytes_that_look_like_its_own_closing_bytes() {
    assert_eq!(frame("a\nb\0"), b"a\nb\0\n\0".to_vec());
}

#[test]
fn emit_drops_what_the_threshold_rejects() {
    let config = debug_and_info_to_stdout();
    assert_eq!(config.emit(Level::Trace, "ready"), None);
}

#[test]
fn emit_routes_and_frames_what_the_threshold_accepts() {
    let config = debug_and_info_to_stdout();
    assert_eq!(
        config.emit(Level::Debug, "ready"),
        Some((OutputStream::StdOut, b"ready\n\0".to_vec()))
    );
    assert_eq!(
        config.emit(Level::Warn, "careful"),
        Some((OutputStream::StdErr, b"careful\n\0".to_vec()))
    );
}

#[test]
fn emit_under_off_writes_nothing() {
    let config = PspLoggerConfig::new(LevelFilter::Off);
    for level in LEVELS {
        assert_eq!(config.emit(level, "anything"), None);
    }
}

#[test]
fn a_new_logger_holds_nothing() {
    let logger = PspLogger::new();
    assert!(!logger.is_initialized());
}

#[test]
fn init_fills_the_slot() {
    let mut logger = PspLogger::new();
    let report = logger.init(PspLoggerConfig::new(LevelFilter::Info), Ok(()));
    assert_eq!(report, Ok(LevelFilter::Info));
    assert!(logger.is_initialized());
}

#[test]
fn init_reports_the_threshold_of_the_configuration_on_acceptance() {
    for filter in [
        LevelFilter::Off,
        LevelFilter::Error,
        LevelFilter::Warn,
        LevelFilter::Info,
        LevelFilter::Debug,
        LevelFilter::Trace,
    ] {
        let mut logger = PspLogger::new();
        assert_eq!(logger.init(PspLoggerConfig::new(filter), Ok(())), Ok(filter));
    }
}

#[test]
fn init_hands_on_the_refusal_of_the_front_end() {
    let mut logger = PspLogger::new();
    let report = logger.init(PspLoggerConfig::new(LevelFilter::Info), Err(SetLoggerError {}));
    assert_eq!(report, Err(SetLoggerError {}));
}

#[test]
fn a_refused_init_leaves_an_empty_slot_empty() {
    let mut logger = PspLogger::new();
    let _ = logger.init(PspLoggerConfig::new(LevelFilter::Warn), Err(SetLoggerError {}));
    assert!(!logger.is_initialized());
    let _ = logger.init(PspLoggerConfig::new(LevelFilter::Trace), Err(SetLoggerError {}));
    assert!(!logger.is_initialized());
}

#[test]
fn an_accepted_init_after_a_refused_one_installs_its_own_configuration() {
    let refused = PspLoggerConfig::new(LevelFilter::Error).with_error_stream(OutputStream::StdOut);
    let accepted = PspLoggerConfig::new(LevelFilter::Info);
    let mut logger = PspLogger::new();
    assert_eq!(logger.init(refused, Err(SetLoggerError {})), Err(SetLoggerError {}));
    assert_eq!(logger.init(accepted, Ok(())), Ok(LevelFilter::Info));

    assert!(logger.is_initialized());
    for level in LEVELS {
        assert_eq!(logger.enabled(level), accepted.is_enabled(level));
        assert_eq!(logger.log(level, "m"), accepted.emit(level, "m"));
    }
    assert_eq!(
        logger.log(Level::Error, "m"),
        Some((OutputStream::StdErr, b"m\n\0".to_vec()))
    );
}

#[test]
fn trace_is_filtered_debug_goes_to_stdout_warn_to_stderr() {
    let mut logger = PspLogger::new();
    assert_eq!(logger.init(debug_and_info_to_stdout(), Ok(())), Ok(LevelFilter::Debug));

    assert_eq!(logger.log(Level::Trace, "never seen"), None);
    assert_eq!(
        logger.log(Level::Debug, "ready"),
        Some((OutputStream::StdOut, b"ready\n\0".to_vec()))
    );
    let warn = logger.log(Level::Warn, "careful");
    assert_eq!(warn, Some((OutputStream::StdErr, b"careful\n\0".to_vec())));
    assert_eq!(
        logger.log(Level::Info, "also on stdout"),
        Some((OutputStream::StdOut, b"also on stdout\n\0".to_vec()))
    );
    assert_eq!(
        logger.log(Level::Error, "on stderr"),
        Some((OutputStream::StdErr, b"on stderr\n\0".to_vec()))
    );
}

#[test]
fn enabled_follows_the_installed_threshold() {
    let mut logger = PspLogger::new();
    let _ = logger.init(debug_and_info_to_stdout(), Ok(()));
    assert!(logger.enabled(Level::Error));
    assert!(logger.enabled(Level::Warn));
    assert!(logger.enabled(Level::Info));
    assert!(logger.enabled(Level::Debug));
    assert!(!logger.enabled(Level::Trace));
}

#[test]
fn a_second_init_that_the_front_end_refuses_changes_nothing() {
    let mut logger = PspLogger::new();
    assert_eq!(logger.init(PspLoggerConfig::new(LevelFilter::Warn), Ok(())), Ok(LevelFilter::Warn));
    let second = PspLoggerConfig::new(LevelFilter::Trace).with_error_stream(OutputStream::StdOut);
    assert_eq!(logger.init(second, Err(SetLoggerError {})), Err(SetLoggerError {}));

    assert!(logger.enabled(Level::Error));
    assert!(logger.enabled(Level::Warn));
    assert!(!logger.enabled(Level::Info));
    assert!(!logger.enabled(Level::Debug));
    assert!(!logger.enabled(Level::Trace));
    assert_eq!(
        logger.log(Level::Error, "still stderr"),
        Some((OutputStream::StdErr, b"still stderr\n\0".to_vec()))
    );
}

#[test]
fn a_second_init_that_the_front_end_accepts_still_keeps_the_first_configuration() {
    let mut logger = PspLogger::new();
    assert_eq!(logger.init(PspLoggerConfig::new(LevelFilter::Warn), Ok(())), Ok(LevelFilter::Warn));
    let second = PspLoggerConfig::new(LevelFilter::Trace).with_error_stream(OutputStream::StdOut);
    assert_eq!(logger.init(second, Ok(())), Ok(LevelFilter::Warn));

    assert!(logger.enabled(Level::Warn));
    assert!(!logger.enabled(Level::Info));
    assert!(!logger.enabled(Level::Trace));
    assert_eq!(logger.log(Level::Trace, "dropped"), None);
    assert_eq!(
        logger.log(Level::Error, "still stderr"),
        Some((OutputStream::StdErr, b"still stderr\n\0".to_vec()))
    );
}

#[test]
fn what_init_reports_is_the_threshold_that_later_events_are_filtered_by() {
    let a = PspLoggerConfig::new(LevelFilter::Error);
    let b = PspLoggerConfig::new(LevelFilter::Debug);
    for (answer_a, answer_b) in [
        (Ok(()), Ok(())),
        (Ok(()), Err(SetLoggerError {})),
        (Err(SetLoggerError {}), Ok(())),
    ] {
        let mut logger = PspLogger::new();
        let report_a = logger.init(a, answer_a);
        let report_b = logger.init(b, answer_b);
        for report in [report_a, report_b] {
            if let Ok(announced) = report {
                for level in LEVELS {
                    assert_eq!(logger.enabled(level), announced.allows(level));
                }
            }
        }
    }
}

#[test]
fn of_two_first_inits_the_one_served_first_is_seen_whole() {
    let a = PspLoggerConfig::new(LevelFilter::Error).with_error_stream(OutputStream::StdOut);
    let b = PspLoggerConfig::new(LevelFilter::Trace);

    let mut a_first = PspLogger::new();
    let _ = a_first.init(a, Ok(()));
    let _ = a_first.init(b, Err(SetLoggerError {}));
    let mut b_first = PspLogger::new();
    let _ = b_first.init(b, Ok(()));
    let _ = b_first.init(a, Err(SetLoggerError {}));

    for level in LEVELS {
        assert_eq!(a_first.enabled(level), a.is_enabled(level));
        assert_eq!(a_first.log(level, "m"), a.emit(level, "m"));
        assert_eq!(b_first.enabled(level), b.is_enabled(level));
        assert_eq!(b_first.log(level, "m"), b.emit(level, "m"));
    }
    assert_eq!(
        a_first.log(Level::Error, "m"),
        Some((OutputStream::StdOut, b"m\n\0".to_vec()))
    );
    assert_eq!(
        b_first.log(Level::Error, "m"),
        Some((OutputStream::StdErr, b"m\n\0".to_vec()))
    );
}

#[test]
fn flush_changes_nothing() {
    let mut logger = PspLogger::new();
    let _ = logger.init(debug_and_info_to_stdout(), Ok(()));
    logger.flush();
    assert!(logger.is_initialized());
    assert_eq!(
        logger.log(Level::Debug, "ready"),
        Some((OutputStream::StdOut, b"ready\n\0".to_vec()))
    );
}
