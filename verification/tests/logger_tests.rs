use logs::{Level, LevelFilter, Logs, LogsError};

#[test]
fn new_logs_lets_everything_through() {
    let l = Logs::new();
    assert!(l.enabled(Level::Trace, "any"));
    assert!(l.enabled(Level::Error, "any"));
}

#[test]
fn level_filter_is_a_threshold() {
    let l = Logs::new().level(LevelFilter::Info);
    assert!(!l.enabled(Level::Trace, "t"));
    assert!(!l.enabled(Level::Debug, "t"));
    assert!(l.enabled(Level::Info, "t"));
    assert!(l.enabled(Level::Warn, "t"));
    assert!(l.enabled(Level::Error, "t"));
}

#[test]
fn level_filter_off_silences_everything() {
    let l = Logs::new().level(LevelFilter::Off);
    assert!(!l.enabled(Level::Trace, "t"));
    assert!(!l.enabled(Level::Error, "t"));
}

#[test]
fn target_filter_matches_by_prefix_with_dashes_as_underscores() {
    let l = Logs::new().target("my-mod");
    assert!(l.enabled(Level::Info, "my_mod"));
    assert!(l.enabled(Level::Info, "my_mod::sub"));
    assert!(!l.enabled(Level::Info, "other"));
    assert!(!l.enabled(Level::Info, "my_mo"));
}

#[test]
fn level_from_str_parses_names_case_insensitively() {
    let l = Logs::new().level_from_str("WARN").unwrap();
    assert!(!l.enabled(Level::Info, "t"));
    assert!(l.enabled(Level::Warn, "t"));
    let l = Logs::new().level_from_str("off").unwrap();
    assert!(!l.enabled(Level::Error, "t"));
    let l = Logs::new().level_from_str("Trace").unwrap();
    assert!(l.enabled(Level::Trace, "t"));
}

#[test]
fn level_from_str_refuses_an_unknown_name() {
    let e = Logs::new().level_from_str("loud").unwrap_err();
    assert!(matches!(e, LogsError::Level));
}

#[test]
fn format_record_builds_the_plain_line() {
    let l = Logs::new();
    let line = l
        .format_record("2022-09-06T08:38:23.490", Level::Info, "t", "This is a info log")
        .unwrap();
    assert_eq!(line, "2022-09-06T08:38:23.490 [INFO ] This is a info log");
}

#[test]
fn format_record_is_silent_below_the_threshold() {
    let l = Logs::new().level(LevelFilter::Warn);
    assert!(l.format_record("ts", Level::Info, "t", "m").is_none());
    assert!(l.format_record("ts", Level::Error, "t", "m").is_some());
}

#[test]
fn format_record_color_changes_only_the_label() {
    let plain = Logs::new()
        .format_record("ts", Level::Error, "t", "payload")
        .unwrap();
    let colored = Logs::new()
        .color(true)
        .format_record("ts", Level::Error, "t", "payload")
        .unwrap();
    assert_eq!(plain, "ts [ERROR] payload");
    assert_eq!(colored, "ts [\x1B[31mERROR\x1B[0m] payload");
    assert!(plain.starts_with("ts ["));
    assert!(colored.starts_with("ts ["));
    assert!(plain.ends_with("] payload"));
    assert!(colored.ends_with("] payload"));
}

#[test]
fn log_renders_a_real_timestamp() {
    let l = Logs::new();
    let line = l.log(Level::Debug, "t", "hello").unwrap();
    assert!(line.ends_with(" [DEBUG] hello"));
    let ts = &line[..line.len() - " [DEBUG] hello".len()];
    // YYYY-MM-DDTHH:MM:SS.mmm
    assert_eq!(ts.len(), 23);
    assert_eq!(&ts[4..5], "-");
    assert_eq!(&ts[10..11], "T");
    assert_eq!(&ts[19..20], ".");
}

#[test]
fn log_is_silent_when_filtered_out() {
    let l = Logs::new().level(LevelFilter::Error).target("mine");
    assert!(l.log(Level::Warn, "mine", "m").is_none());
    assert!(l.log(Level::Error, "other", "m").is_none());
    assert!(l.log(Level::Error, "mine::sub", "m").is_some());
}
