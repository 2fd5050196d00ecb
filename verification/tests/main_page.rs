use openvtc::display::{sanitize_display, shorten_did};
use openvtc::main_page::{MainPageState, MainPanel, MAX_ACTIVITY_LOG_ENTRIES};

#[test]
fn test_sanitize_display_strips_control_chars() {
    assert_eq!(sanitize_display("hello\x00world", 256), "helloworld");
    assert_eq!(sanitize_display("hello\nworld", 256), "helloworld");
}

#[test]
fn test_sanitize_display_strips_ansi_escapes() {
    assert_eq!(sanitize_display("\x1b[31mred\x1b[0m", 256), "red");
}

#[test]
fn test_sanitize_display_truncates() {
    let long = "a".repeat(300);
    let result = sanitize_display(&long, 10);
    assert_eq!(result.len(), 10);
}

#[test]
fn test_sanitize_display_preserves_spaces() {
    assert_eq!(sanitize_display("hello world", 256), "hello world");
}

#[test]
fn test_sanitize_display_empty_input() {
    assert_eq!(sanitize_display("", 256), "");
}

#[test]
fn test_shorten_did_short_input() {
    let short = "did:test:abc";
    let result = shorten_did(short, 60);
    assert_eq!(result, short);
}

#[test]
fn test_shorten_did_long_input() {
    let long = "did:test:abcdefghijklmnopqrstuvwxyz";
    let result = shorten_did(long, 20);
    assert!(result.ends_with("..."));
    assert!(result.len() <= 20);
}

#[test]
fn test_shorten_did_exact_fit() {
    let did = "did:test:exactly30charslongXXX";
    let result = shorten_did(did, 30);
    assert_eq!(result.len(), did.len());
}

#[test]
fn test_activity_log_bounded() {
    let mut state = MainPageState::default();
    for i in 0..MAX_ACTIVITY_LOG_ENTRIES + 10 {
        state.log(format!("entry-{}", i));
    }
    assert_eq!(state.activity_log.len(), MAX_ACTIVITY_LOG_ENTRIES);
    assert!(state.activity_log.front().unwrap().summary.contains("entry-10"));
}

#[test]
fn test_main_panel_switch() {
    let panel = MainPanel::MainMenu;
    assert!(matches!(panel.switch(), MainPanel::ContentPanel));
    let panel = MainPanel::ContentPanel;
    assert!(matches!(panel.switch(), MainPanel::MainMenu));
}

#[test]
fn only_a_bracket_opens_an_escape_sequence() {
    assert_eq!(sanitize_display("\x1bhello", 256), "hello");
    assert_eq!(sanitize_display("a\x1b\x1b[1;32mb", 256), "ab");
    assert_eq!(sanitize_display("a\x1b[12", 256), "a");
    assert_eq!(sanitize_display("tail\x1b", 256), "tail");
}
