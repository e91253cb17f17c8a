use xkeen_ui::logquery::{any_term_in, line_selected, normalize_levels};

#[test]
fn level_spellings_are_made_uniform() {
    assert_eq!(normalize_levels("2024/01/01 [Warning] x [Info] y"), "2024/01/01 [WARN] x [INFO] y");
    assert_eq!(normalize_levels("time=\"t\" level=error msg=\"m\""), "time=\"t\" level=ERROR msg=\"m\"");
    assert_eq!(normalize_levels("[Debug][Fatal] level=fatal"), "[DEBUG][FATAL] level=FATAL");
}

#[test]
fn terms_are_separated_by_bars() {
    assert!(any_term_in("foo|bar", "xx bar yy"));
    assert!(any_term_in("||foo||", "a foo"));
    assert!(!any_term_in("foo|bar", "baz"));
    assert!(!any_term_in("|||", "anything"));
    assert!(!any_term_in("", "anything"));
}

#[test]
fn empty_query_selects_every_line() {
    assert!(line_selected("whatever", ""));
    assert!(line_selected("2024 [Warning] disk", "[WARN]"));
    assert!(line_selected("level=info msg=x", "level=INFO|nothing"));
    assert!(!line_selected("2024 [Info] fine", "[WARN]|[ERROR]"));
}
