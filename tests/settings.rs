use wimm::config::Config;
use wimm::settings::parse_u32;

fn message<T>(r: Result<T, String>) -> String {
    match r {
        Ok(_) => panic!("expected an error"),
        Err(m) => m,
    }
}

#[test]
fn parse_u32_like_from_str() {
    for s in ["0", "7", "+8", "23", "0042", "4294967295", "", "+", "-1", "4294967296", "1a", " 1", "99999999999"] {
        assert_eq!(parse_u32(s), s.parse::<u32>().ok(), "{s}");
    }
}

#[test]
fn key_value_settings() {
    let mut config = Config::default();
    assert_eq!(
        config.apply_setting("colors", "dark").unwrap(),
        "Configuration updated: colors = dark"
    );
    assert_eq!(config.colors.name, "dark");
    assert_eq!(
        config.apply_setting("keymap", "vi").unwrap(),
        "Configuration updated: keymap = vi"
    );
    assert_eq!(config.keymap.name, "vi");
    config.apply_setting("defer-hour", "8").unwrap();
    assert_eq!(config.time.defer_hour, 8);
    config.apply_setting("due-hour", "+18").unwrap();
    assert_eq!(config.time.due_hour, 18);
    config.apply_setting("timezone", "Europe/Paris").unwrap();
    assert_eq!(config.time.timezone.as_deref(), Some("Europe/Paris"));
    config.apply_setting("timezone", "system").unwrap();
    assert!(config.time.timezone.is_none());
}

#[test]
fn key_value_errors() {
    let mut config = Config::default();
    assert_eq!(
        message(config.apply_setting("color-scheme", "neon")),
        "Failed to set color scheme: Invalid time: Color scheme 'neon' not found"
    );
    assert_eq!(
        message(config.apply_setting("keymap", "emacs")),
        "Failed to set keymap: Invalid time: Keymap 'emacs' not found"
    );
    assert_eq!(
        message(config.apply_setting("defer-hour", "late")),
        "Defer hour must be a number between 0 and 23"
    );
    assert_eq!(
        message(config.apply_setting("due-hour", "24")),
        "Due hour must be between 0 and 23"
    );
    assert_eq!(
        message(config.apply_setting("font", "mono")),
        "Unknown configuration key: font. Available keys: color-scheme, keymap, defer-hour, due-hour, timezone"
    );
    assert_eq!(config.time.due_hour, 17);
    assert_eq!(config.colors.name, "default");
}

#[test]
fn flag_settings() {
    let mut config = Config::default();
    let lines = config
        .apply_settings(None, None, Some("light"), None, Some(8), Some(18))
        .unwrap();
    assert_eq!(
        lines,
        vec![
            "Configuration updated: color-scheme = light",
            "Configuration updated: defer-hour = 8",
            "Configuration updated: due-hour = 18",
        ]
    );
    assert_eq!(config.colors.name, "light");
    assert_eq!(config.time.defer_hour, 8);
    assert_eq!(config.time.due_hour, 18);
    assert_eq!(
        message(config.apply_settings(None, None, None, None, None, None)),
        "No configuration changes specified. Use either 'key value' format or flags like --color-scheme"
    );
    assert_eq!(
        message(config.apply_settings(Some("keymap"), None, None, None, None, None)),
        "No configuration changes specified. Use either 'key value' format or flags like --color-scheme"
    );
    assert_eq!(
        message(config.apply_settings(None, None, None, None, Some(30), None)),
        "Defer hour must be between 0 and 23"
    );
}

#[test]
fn summary_and_listings() {
    let mut config = Config::default();
    assert_eq!(
        config.summary_lines(),
        vec![
            "Current configuration:",
            "  Color scheme: default",
            "  Keymap: default",
            "  Default defer hour: 9",
            "  Default due hour: 17",
            "  Timezone: (system default)",
        ]
    );
    config.set_color_scheme("dark").unwrap();
    assert_eq!(
        config.color_scheme_lines(),
        vec!["Available color schemes:", "  default", "  dark (current)", "  light"]
    );
    assert_eq!(
        config.keymap_lines(),
        vec!["Available keymaps:", "  default (current)", "  vi"]
    );
}
