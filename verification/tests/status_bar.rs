use mqtt_log_viewer::datetime::Timestamp;
use mqtt_log_viewer::status_bar::{
    connection_unchanged, marks_unchanged, states_equal_status, ConnectionStatus, StatusBar,
    StatusBarState, ViewType,
};

#[test]
fn a_fresh_status_bar_is_disconnected() {
    let state = StatusBarState::default();
    assert!(matches!(state.connection_status, ConnectionStatus::Disconnected));
    assert_eq!(state.total_topics, 0);
    assert_eq!(state.total_messages, 0);
    assert_eq!(state.last_update, None);
    assert!(matches!(state.current_view, ViewType::TopicList));
    assert_eq!(state.help_text, "[/]filter [Enter]select [↑↓]navigate [F5]refresh [F1]help");
    assert!(state.quick_filter_states.is_empty());
}

#[test]
fn each_screen_has_its_help_text() {
    let mut state = StatusBarState::default();
    StatusBar::set_help_text_for_view(&mut state, &ViewType::MessageList("a/b".to_string()));
    assert_eq!(
        state.help_text,
        "[←]back [/]filter [Enter]view [↑↓]navigate [Home/End]first/last [F2]json [F1]help"
    );
    assert!(matches!(&state.current_view, ViewType::MessageList(t) if t == "a/b"));
    StatusBar::set_help_text_for_view(
        &mut state,
        &ViewType::PayloadDetail("a/b".to_string(), Timestamp { secs: 1, nanos: 2 }),
    );
    assert_eq!(
        state.help_text,
        "[←]back [F2]json-depth [c]opy [↑↓]scroll [PgUp/PgDn]page [F1]help"
    );
    StatusBar::set_help_text_for_view(&mut state, &ViewType::TopicList);
    assert_eq!(
        state.help_text,
        "[/]filter [Enter]select [↑↓]navigate [Home/End]first/last [←]back [F5]refresh [F1]help"
    );
}

#[test]
fn connections_compare_by_kind_and_address() {
    let connected = |a: &str| ConnectionStatus::Connected(a.to_string());
    assert!(connection_unchanged(&ConnectionStatus::Disconnected, &ConnectionStatus::Disconnected));
    assert!(connection_unchanged(&ConnectionStatus::Connecting, &ConnectionStatus::Connecting));
    assert!(connection_unchanged(&connected("a:1"), &connected("a:1")));
    assert!(!connection_unchanged(&connected("a:1"), &connected("a:2")));
    assert!(!connection_unchanged(&ConnectionStatus::Connecting, &ConnectionStatus::Disconnected));
    assert!(!connection_unchanged(
        &ConnectionStatus::Error("x".to_string()),
        &ConnectionStatus::Error("x".to_string())
    ));
}

#[test]
fn marks_compare_entry_by_entry() {
    let mark = |n: &str, on: bool| (n.to_string(), "red".to_string(), on);
    let a = vec![mark("INFO", true), mark("WARN", false)];
    assert!(marks_unchanged(&a, &a.clone()));
    assert!(!marks_unchanged(&a, &vec![mark("INFO", true)]));
    assert!(!marks_unchanged(&a, &vec![mark("INFO", true), mark("WARN", true)]));
    assert!(!marks_unchanged(&a, &vec![mark("INFO", true), mark("warn", false)]));
    assert!(marks_unchanged(&Vec::new(), &Vec::new()));
    let mut recoloured = a.clone();
    recoloured[0].1 = "blue".to_string();
    assert!(!marks_unchanged(&a, &recoloured));
}

#[test]
fn frames_of_the_status_rows_ignore_the_screen() {
    let a = StatusBarState::default();
    let mut b = a.snapshot();
    assert!(states_equal_status(&a, &b));
    b.current_view = ViewType::MessageList("t".to_string());
    assert!(states_equal_status(&a, &b));
    assert!(!StatusBar::status_line_changed(&a, Some(&b)));
    assert!(!StatusBar::help_line_changed(&a, Some(&b)));
    assert!(StatusBar::status_line_changed(&a, None));
    assert!(StatusBar::help_line_changed(&a, None));
    b.total_messages = 5;
    assert!(StatusBar::status_line_changed(&a, Some(&b)));
    assert!(!StatusBar::help_line_changed(&a, Some(&b)));
    assert!(!states_equal_status(&a, &b));
    b.total_messages = 0;
    b.help_text = "other".to_string();
    assert!(!StatusBar::status_line_changed(&a, Some(&b)));
    assert!(StatusBar::help_line_changed(&a, Some(&b)));
    b.help_text = a.help_text.clone();
    b.last_update = Some(Timestamp { secs: 1, nanos: 0 });
    assert!(!states_equal_status(&a, &b));
    b.last_update = None;
    b.total_topics = 1;
    assert!(StatusBar::status_line_changed(&a, Some(&b)));
}

#[test]
fn a_mark_names_key_rule_and_switch() {
    assert_eq!(StatusBar::mark(0, "INFO", true), "[F1:INFO ✓]");
    assert_eq!(StatusBar::mark(4, "DEBUG", false), "[F5:DEBUG ✗]");
    assert_eq!(StatusBar::mark(11, "", true), "[F12: ✓]");
}
