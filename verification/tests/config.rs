use mqtt_log_viewer::config::{default_rules, leading_rules, Config, QuickFilter};
use mqtt_log_viewer::datetime::Timestamp;
use mqtt_log_viewer::models::{clone_messages, clone_text, FilterCriteria, Message};

#[test]
fn the_default_settings_are_those_of_a_fresh_installation() {
    let config = Config::default();
    assert_eq!(config.mqtt.host, "127.0.0.1");
    assert_eq!(config.mqtt.port, 1883);
    assert_eq!(config.mqtt.username, None);
    assert_eq!(config.mqtt.password, None);
    assert_eq!(config.mqtt.client_id, "mqtt_log_viewer");
    assert_eq!(config.database.path, "./mqtt_logs.db");
    assert_eq!(config.database.max_messages, 100_000);
    assert!(config.database.auto_cleanup);
    assert_eq!(config.database.cleanup_days, 30);
    assert_eq!(config.ui.refresh_interval_ms, 250);
    assert_eq!(config.ui.max_payload_preview, 50);
    assert_eq!(config.ui.theme, "dark");
    assert!(config.ui.enable_json_highlight);
    assert_eq!(config.performance.max_memory_mb, 100);
    assert_eq!(config.performance.cache_size, 1000);
    assert_eq!(config.performance.batch_size, 100);
    assert!(config.quick_filters.enabled);
    let rules = &config.quick_filters.filters;
    let names: Vec<&str> = rules.iter().map(|r| r.name.as_str()).collect();
    assert_eq!(names, vec!["INFO", "WARN", "ERROR", "TRACE", "DEBUG"]);
    let colors: Vec<&str> = rules.iter().map(|r| r.color.as_str()).collect();
    assert_eq!(colors, vec!["light_green", "yellow", "red", "dark_grey", "cyan"]);
    let keys: Vec<&str> = rules.iter().map(|r| r.hotkey.as_str()).collect();
    assert_eq!(keys, vec!["F1", "F2", "F3", "F4", "F5"]);
    assert!(rules.iter().all(|r| r.enabled && !r.case_sensitive && r.pattern == r.name));
}

#[test]
fn a_copy_of_the_settings_holds_the_same_values() {
    let mut config = Config::default();
    config.mqtt.username = Some("user".to_string());
    config.quick_filters.filters.pop();
    let copy = config.clone();
    assert_eq!(copy.mqtt.username, Some("user".to_string()));
    assert_eq!(copy.quick_filters.filters.len(), 4);
    assert_eq!(copy.quick_filters.filters[3].name, "TRACE");
    assert_eq!(copy.database.path, config.database.path);
}

#[test]
fn leading_rules_are_the_first_five() {
    let mut rules = default_rules();
    rules.push(QuickFilter::keyword("FATAL", "magenta", "F6"));
    rules.push(QuickFilter::keyword("NOTE", "blue", "F7"));
    let first = leading_rules(&rules);
    assert_eq!(first.len(), 5);
    assert_eq!(first[4].name, "DEBUG");
    assert_eq!(leading_rules(&rules[..2].to_vec()).len(), 2);
    assert!(leading_rules(&Vec::new()).is_empty());
}

#[test]
fn a_new_message_is_stamped_once() {
    let m = Message::new("a/b".to_string(), "payload".to_string(), 2, true);
    assert_eq!(m.id, None);
    assert_eq!(m.topic, "a/b");
    assert_eq!(m.payload, "payload");
    assert_eq!(m.qos, 2);
    assert!(m.retain);
    assert_eq!(m.created_at, Some(m.timestamp));
    assert!(m.timestamp.secs > 1_600_000_000);
    assert!(m.timestamp.nanos < 1_000_000_000);
    let at = Timestamp { secs: 5, nanos: 6 };
    let s = Message::stamped("t".to_string(), "p".to_string(), 0, false, at);
    assert_eq!(s.timestamp, at);
    assert_eq!(s.created_at, Some(at));
}

#[test]
fn the_default_query_asks_for_the_first_thousand_rows() {
    let criteria = FilterCriteria::default();
    assert_eq!(criteria.topic_regex, None);
    assert_eq!(criteria.payload_regex, None);
    assert_eq!(criteria.start_time, None);
    assert_eq!(criteria.end_time, None);
    assert_eq!(criteria.limit, Some(1000));
    assert_eq!(criteria.offset, Some(0));
    let mut other = criteria.clone();
    other.payload_regex = Some("x".to_string());
    assert_eq!(other.clone().payload_regex, Some("x".to_string()));
}

#[test]
fn copies_hold_the_same_rows() {
    let rows = vec![
        Message::stamped("a".to_string(), "1".to_string(), 0, false, Timestamp { secs: 1, nanos: 0 }),
        Message::stamped("b".to_string(), "2".to_string(), 1, true, Timestamp { secs: 2, nanos: 0 }),
    ];
    let copy = clone_messages(&rows);
    assert_eq!(copy.len(), 2);
    assert_eq!(copy[1].topic, "b");
    assert_eq!(copy[1].timestamp, Timestamp { secs: 2, nanos: 0 });
    assert_eq!(clone_text(&Some("x".to_string())), Some("x".to_string()));
    assert_eq!(clone_text(&None), None);
}
