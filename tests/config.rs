use wanna_ls::{select_mode, Config, Mode, DEFAULT_TIME_LIMIT_MS, DEFAULT_TOO_MANY_ENTRIES};

#[test]
fn default_config_values() {
    let config = Config::default();
    assert_eq!(config.time_limit_ms, 50);
    assert_eq!(config.too_many_entries, 32);
    assert_eq!(DEFAULT_TIME_LIMIT_MS, 50);
    assert_eq!(DEFAULT_TOO_MANY_ENTRIES, 32);
}

#[test]
fn overrides_replace_configured_values() {
    let config = Config { time_limit_ms: 7, too_many_entries: 9 };
    assert_eq!(config.with_overrides(None, None), config);
    assert_eq!(
        config.with_overrides(Some(10000), Some(100000)),
        Config { time_limit_ms: 100000, too_many_entries: 10000 }
    );
    assert_eq!(config.with_overrides(Some(0), None), Config { time_limit_ms: 7, too_many_entries: 0 });
    assert_eq!(config.with_overrides(None, Some(0)), Config { time_limit_ms: 0, too_many_entries: 9 });
}

#[test]
fn mode_flags_in_order_of_precedence() {
    assert_eq!(select_mode(true, true, true), Mode::Completions);
    assert_eq!(select_mode(false, true, true), Mode::DefaultConfig);
    assert_eq!(select_mode(false, false, true), Mode::CountOnly);
    assert_eq!(select_mode(false, false, false), Mode::Check);
}
