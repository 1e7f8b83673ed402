use mqtt_log_viewer::config::{default_rules, QuickFilter};
use mqtt_log_viewer::datetime::Timestamp;
use mqtt_log_viewer::models::Message;
use mqtt_log_viewer::quick_filter::{
    apply_quick_filters, content, has_active, matches_any_active_filter, matches_any_filter,
    message_passes, rule_hits,
};

fn row(topic: &str, payload: &str) -> Message {
    Message {
        id: None,
        topic: topic.to_string(),
        payload: payload.to_string(),
        timestamp: Timestamp { secs: 0, nanos: 0 },
        qos: 1,
        retain: false,
        created_at: None,
    }
}

fn rule(pattern: &str, case_sensitive: bool) -> QuickFilter {
    QuickFilter {
        name: pattern.to_string(),
        pattern: pattern.to_string(),
        color: "red".to_string(),
        hotkey: "F1".to_string(),
        enabled: true,
        case_sensitive,
    }
}

#[test]
fn content_is_topic_blank_payload() {
    assert_eq!(content(&row("a/b", "x y")), "a/b x y");
    assert_eq!(content(&row("", "")), " ");
}

#[test]
fn rules_match_substrings_with_or_without_case() {
    assert!(rule_hits(&rule("ERROR", false), "an error occurred"));
    assert!(rule_hits(&rule("error", false), "An ERROR occurred"));
    assert!(!rule_hits(&rule("ERROR", true), "an error occurred"));
    assert!(rule_hits(&rule("ERROR", true), "an ERROR occurred"));
    assert!(!rule_hits(&rule("ERROR", false), "all fine"));
    assert!(rule_hits(&rule("", true), "anything"));
    assert!(rule_hits(&rule("ÄRGER", false), "viel ärger"));
}

#[test]
fn a_rule_matches_the_topic_too() {
    let rules = vec![rule("warn", false)];
    let switches = vec![true, true, true, true, true];
    assert!(message_passes(&rules, &switches, &row("alerts/WARN", "42")));
    assert!(!message_passes(&rules, &switches, &row("alerts/war", "n")));
    assert!(message_passes(&rules, &switches, &row("alerts/war", "warn")));
}

#[test]
fn with_a_switch_on_only_matches_of_enabled_rules_pass() {
    let rules = default_rules();
    let switches = vec![false, false, true, false, false];
    let rows = vec![
        row("t", "INFO a"),
        row("t", "error b"),
        row("t", "nothing"),
        row("t", "ERROR and INFO"),
        row("t", "debug"),
    ];
    let kept = apply_quick_filters(&rules, &switches, rows);
    let payloads: Vec<&str> = kept.iter().map(|m| m.payload.as_str()).collect();
    assert_eq!(payloads, vec!["error b", "ERROR and INFO"]);
}

#[test]
fn with_every_switch_off_only_rows_that_match_no_rule_pass() {
    let rules = default_rules();
    let switches = vec![false; 5];
    let rows = vec![
        row("t", "INFO a"),
        row("t", "nothing"),
        row("t", "trace c"),
        row("t", "also nothing"),
        row("warn/x", "plain"),
    ];
    let kept = apply_quick_filters(&rules, &switches, rows);
    let payloads: Vec<&str> = kept.iter().map(|m| m.payload.as_str()).collect();
    assert_eq!(payloads, vec!["nothing", "also nothing"]);
}

#[test]
fn a_switch_without_a_rule_lets_nothing_through() {
    let rules = vec![rule("a", false)];
    let switches = vec![false, true, false, false, false];
    assert!(has_active(&switches));
    assert!(!matches_any_active_filter(&rules, &switches, "a"));
    assert!(matches_any_filter(&rules, "a"));
    assert!(!message_passes(&rules, &switches, &row("a", "a")));
}

#[test]
fn without_rules_everything_passes_only_with_every_switch_off() {
    let rules: Vec<QuickFilter> = Vec::new();
    assert!(message_passes(&rules, &vec![false; 5], &row("a", "b")));
    assert!(!message_passes(&rules, &vec![true; 5], &row("a", "b")));
    assert!(!has_active(&vec![false; 5]));
    assert!(!has_active(&Vec::new()));
}

#[test]
fn filtering_keeps_the_order_of_the_rows() {
    let rules = default_rules();
    let switches = vec![true; 5];
    let rows: Vec<Message> = (0..20)
        .map(|i| row("t", if i % 3 == 0 { "info" } else { "quiet" }))
        .enumerate()
        .map(|(i, mut m)| {
            m.id = Some(i as i64);
            m
        })
        .collect();
    let kept = apply_quick_filters(&rules, &switches, rows);
    let ids: Vec<i64> = kept.iter().map(|m| m.id.unwrap()).collect();
    assert_eq!(ids, vec![0, 3, 6, 9, 12, 15, 18]);
}
