use logs::{Level, LogConfig, LogError};

fn flags(c: &LogConfig) -> (bool, bool, bool, bool, bool) {
    (
        c.get_trace(),
        c.get_debug(),
        c.get_info(),
        c.get_warn(),
        c.get_error(),
    )
}

#[test]
fn enable_all_turns_everything_on() {
    let c = LogConfig::enable_all();
    assert_eq!(flags(&c), (true, true, true, true, true));
    assert!(!c.get_color());
    assert_eq!(
        c.get_date_format(),
        "[year]-[month]-[day] [hour]:[minute]:[second]"
    );
}

#[test]
fn disable_all_turns_everything_off() {
    let c = LogConfig::disable_all();
    assert_eq!(flags(&c), (false, false, false, false, false));
    assert!(!c.get_color());
}

#[test]
fn default_is_enable_all() {
    let c = LogConfig::default();
    assert_eq!(flags(&c), (true, true, true, true, true));
}

#[test]
fn token_list_layered_overrides() {
    let c = LogConfig::from_token_list("all,!debug,info,!error").unwrap();
    assert_eq!(flags(&c), (true, false, true, true, false));
}

#[test]
fn token_list_bogus_token_fails_with_that_token() {
    let e = LogConfig::from_token_list("bogus").unwrap_err();
    match e {
        LogError::FormatError(t) => assert_eq!(t, "bogus"),
        other => panic!("unexpected error {:?}", other),
    }
}

#[test]
fn token_list_empty_input_fails_with_empty_token() {
    let e = LogConfig::from_token_list("").unwrap_err();
    match e {
        LogError::FormatError(t) => assert_eq!(t, ""),
        other => panic!("unexpected error {:?}", other),
    }
}

#[test]
fn token_list_trailing_comma_fails_with_empty_token() {
    let e = LogConfig::from_token_list("all,").unwrap_err();
    match e {
        LogError::FormatError(t) => assert_eq!(t, ""),
        other => panic!("unexpected error {:?}", other),
    }
}

#[test]
fn token_list_is_case_insensitive_and_trims() {
    let c = LogConfig::from_token_list(" All , !Debug ").unwrap();
    assert_eq!(flags(&c), (true, false, true, true, true));
}

#[test]
fn token_list_error_carries_lowercased_untrimmed_piece() {
    let e = LogConfig::from_token_list("all, bogUs ").unwrap_err();
    match e {
        LogError::FormatError(t) => assert_eq!(t, " bogus "),
        other => panic!("unexpected error {:?}", other),
    }
}

#[test]
fn token_list_bang_all_resets() {
    let c = LogConfig::from_token_list("info,warn,!all,error").unwrap();
    assert_eq!(flags(&c), (false, false, false, false, true));
}

#[test]
fn token_list_later_token_wins() {
    let c = LogConfig::from_token_list("info,!info").unwrap();
    assert_eq!(flags(&c), (false, false, false, false, false));
}

#[test]
fn enable_then_disable_then_info_leaves_only_info() {
    let mut c = LogConfig::enable_all();
    c = LogConfig::disable_all();
    c.set_level_enabled(Level::Info, true);
    assert_eq!(flags(&c), (false, false, true, false, false));
}

#[test]
fn setters_touch_only_their_field() {
    let mut c = LogConfig::disable_all();
    c.trace(true);
    assert_eq!(flags(&c), (true, false, false, false, false));
    c.debug(true);
    c.info(true);
    c.warn(true);
    c.error(true);
    assert_eq!(flags(&c), (true, true, true, true, true));
    c.warn(false);
    assert_eq!(flags(&c), (true, true, true, false, true));
    c.color(true);
    assert!(c.get_color());
    assert_eq!(flags(&c), (true, true, true, false, true));
}

#[test]
fn date_format_accepts_a_valid_pattern() {
    let mut c = LogConfig::enable_all();
    assert!(c.date_format("[hour]:[minute]").is_ok());
    assert_eq!(c.get_date_format(), "[hour]:[minute]");
}

#[test]
fn date_format_refuses_an_invalid_pattern_and_keeps_the_old_one() {
    let mut c = LogConfig::enable_all();
    c.date_format("[hour]:[minute]").unwrap();
    let e = c.date_format("[bogus").unwrap_err();
    assert!(matches!(e, LogError::PatternError));
    assert_eq!(c.get_date_format(), "[hour]:[minute]");
}

#[test]
fn apply_round_trips_every_field() {
    let mut slot = logs::ConfigSlot::new();
    let mut c = LogConfig::disable_all();
    c.info(true);
    c.error(true);
    c.color(true);
    c.date_format("[hour]").unwrap();
    c.clone().apply(&mut slot);
    let back = slot.current();
    assert_eq!(flags(back), flags(&c));
    assert_eq!(back.get_color(), c.get_color());
    assert_eq!(back.get_date_format(), c.get_date_format());
}

#[test]
fn fresh_slot_enables_everything() {
    let slot = logs::ConfigSlot::new();
    assert_eq!(flags(slot.current()), (true, true, true, true, true));
    assert!(!slot.current().get_color());
}

#[test]
fn emit_builds_the_bracketed_line() {
    let c = LogConfig::enable_all();
    let line = c.emit(Level::Info, "2020-11-27 13:51:59", "hello").unwrap();
    assert_eq!(line, "[2020-11-27 13:51:59] [INFO ] hello");
}

#[test]
fn emit_is_silent_for_a_disabled_level() {
    let mut c = LogConfig::enable_all();
    c.set_level_enabled(Level::Debug, false);
    assert!(c.emit(Level::Debug, "t", "m").is_none());
    assert!(c.emit(Level::Trace, "t", "m").is_some());
    assert!(c.emit(Level::Info, "t", "m").is_some());
    assert!(c.emit(Level::Warn, "t", "m").is_some());
    assert!(c.emit(Level::Error, "t", "m").is_some());
}

#[test]
fn emit_color_changes_only_the_label() {
    let mut c = LogConfig::enable_all();
    let plain = c.emit(Level::Warn, "ts", "payload").unwrap();
    c.color(true);
    let colored = c.emit(Level::Warn, "ts", "payload").unwrap();
    assert_eq!(plain, "[ts] [WARN ] payload");
    assert_eq!(colored, "[ts] [\x1B[33mWARN \x1B[0m] payload");
    assert!(plain.starts_with("[ts] ["));
    assert!(colored.starts_with("[ts] ["));
    assert!(plain.ends_with("] payload"));
    assert!(colored.ends_with("] payload"));
}

#[test]
fn emit_now_renders_a_timestamp_with_the_configured_pattern() {
    let mut c = LogConfig::enable_all();
    c.date_format("[year]").unwrap();
    let line = c.emit_now(Level::Info, "msg").unwrap();
    // "[2###] [INFO ] msg": a four-digit year, not the pattern itself
    assert!(line.ends_with("] [INFO ] msg"));
    let ts = &line[1..line.len() - "] [INFO ] msg".len()];
    assert_eq!(ts.len(), 4);
    assert!(ts.chars().all(|c| c.is_ascii_digit()));
}

#[test]
fn emit_now_default_pattern_renders_date_and_time() {
    let c = LogConfig::enable_all();
    let line = c.emit_now(Level::Warn, "msg").unwrap();
    assert!(line.ends_with("] [WARN ] msg"));
    let ts = &line[1..line.len() - "] [WARN ] msg".len()];
    // YYYY-MM-DD HH:MM:SS
    assert_eq!(ts.len(), 19);
    assert_eq!(&ts[4..5], "-");
    assert_eq!(&ts[7..8], "-");
    assert_eq!(&ts[10..11], " ");
    assert_eq!(&ts[13..14], ":");
    assert_eq!(&ts[16..17], ":");
}

#[test]
fn token_list_whitespace_only_token_fails() {
    let e = LogConfig::from_token_list("info,  ").unwrap_err();
    match e {
        LogError::FormatError(t) => assert_eq!(t, "  "),
        other => panic!("unexpected error {:?}", other),
    }
}

#[test]
fn emit_now_is_silent_for_a_disabled_level() {
    let c = LogConfig::disable_all();
    assert!(c.emit_now(Level::Error, "msg").is_none());
}

#[test]
fn level_to_str_plain_labels() {
    assert_eq!(logs::level_to_str(Level::Trace, false), "TRACE");
    assert_eq!(logs::level_to_str(Level::Debug, false), "DEBUG");
    assert_eq!(logs::level_to_str(Level::Info, false), "INFO ");
    assert_eq!(logs::level_to_str(Level::Warn, false), "WARN ");
    assert_eq!(logs::level_to_str(Level::Error, false), "ERROR");
}

#[test]
fn level_to_str_colored_labels() {
    assert_eq!(logs::level_to_str(Level::Trace, true), "\x1B[2;3mTRACE\x1B[0m");
    assert_eq!(logs::level_to_str(Level::Debug, true), "\x1B[3;34mDEBUG\x1B[0m");
    assert_eq!(logs::level_to_str(Level::Info, true), "\x1B[32mINFO \x1B[0m");
    assert_eq!(logs::level_to_str(Level::Warn, true), "\x1B[33mWARN \x1B[0m");
    assert_eq!(logs::level_to_str(Level::Error, true), "\x1B[31mERROR\x1B[0m");
}
