use xkeen_ui::settings::{normalize_proxy, AppSettings, SettingsError};
use xkeen_ui::text::{nth_word, trim};

#[test]
fn defaults() {
    let s = AppSettings::default();
    assert_eq!(s.updater.github_proxy, vec!["https://gh-proxy.com".to_string(), "https://ghfast.top".to_string()]);
    assert!(s.updater.backup_core);
    assert_eq!(s.log.timezone, 3);
    assert!(!s.gui.routing && !s.gui.log && !s.gui.auto_apply);
}

#[test]
fn legacy_settings_keep_only_the_time_zone() {
    let s = AppSettings::from_legacy(-5);
    assert_eq!(s.log.timezone, -5);
    assert_eq!(s.updater.github_proxy.len(), 2);
}

#[test]
fn trimming_drops_surrounding_white_space() {
    assert_eq!(trim("  a b \t\n"), "a b");
    assert_eq!(trim("\u{3000}x\u{a0}"), "x");
    assert_eq!(trim("   "), "");
}

#[test]
fn proxies_are_normalized() {
    assert_eq!(normalize_proxy("  https://a.example "), "https://a.example");
    assert_eq!(normalize_proxy("http://b.example"), "http://b.example");
    assert_eq!(normalize_proxy("c.example"), "https://c.example");
    assert_eq!(normalize_proxy("://://d.example"), "https://d.example");
    let mut s = AppSettings::default();
    s.updater.github_proxy = vec![" e.example ".to_string(), "https://f".to_string()];
    s.normalize_proxies();
    assert_eq!(s.updater.github_proxy, vec!["https://e.example".to_string(), "https://f".to_string()]);
}

#[test]
fn time_zone_must_be_in_range() {
    let mut s = AppSettings::default();
    s.log.timezone = 15;
    assert!(matches!(s.accept(), Err(SettingsError::TimezoneOutOfRange)));
    let mut t = AppSettings::default();
    t.log.timezone = -12;
    t.updater.github_proxy = vec!["g.example".to_string()];
    let ok = t.accept().unwrap();
    assert_eq!(ok.updater.github_proxy, vec!["https://g.example".to_string()]);
    let mut u = AppSettings::default();
    u.log.timezone = -13;
    assert!(u.accept().is_err());
}

#[test]
fn words_are_runs_without_white_space() {
    assert_eq!(nth_word("  alpha \t beta\ngamma ", 0), Some("alpha".to_string()));
    assert_eq!(nth_word("  alpha \t beta\ngamma ", 2), Some("gamma".to_string()));
    assert_eq!(nth_word("  alpha \t beta\ngamma ", 3), None);
    assert_eq!(nth_word("", 0), None);
}

#[test]
fn normalizing_twice_changes_nothing() {
    for p in ["  c.example ", "://x", "http://y ", "\u{3000}", ""] {
        let once = normalize_proxy(p);
        assert_eq!(normalize_proxy(&once), once);
    }
}
