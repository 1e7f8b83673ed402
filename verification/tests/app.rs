use mqtt_log_viewer::app::{
    App, AppState, Effect, PayloadDetailSelection, Pending, Reply, Repaint,
};
use mqtt_log_viewer::config::Config;
use mqtt_log_viewer::datetime::Timestamp;
use mqtt_log_viewer::events::{AppEvent, KeyCode};
use mqtt_log_viewer::filter_bar::FilterField;
use mqtt_log_viewer::list_keys::DeleteTarget;
use mqtt_log_viewer::message_list::{FocusTarget, LoadReply};
use mqtt_log_viewer::models::{Message, TopicStat};
use mqtt_log_viewer::status_bar::{ConnectionStatus, ViewType};
use mqtt_log_viewer::store::select_rows;

fn stored(count: i64) -> Vec<Message> {
    (1..=count)
        .map(|i| Message {
            id: Some(i),
            topic: "sensors/1".to_string(),
            payload: format!("INFO reading {}", i),
            timestamp: Timestamp { secs: 2_000 - i, nanos: 0 },
            qos: 0,
            retain: false,
            created_at: None,
        })
        .collect()
}

fn topic(name: &str, count: i64) -> TopicStat {
    TopicStat {
        topic: name.to_string(),
        message_count: count,
        last_message_time: Timestamp { secs: 10, nanos: 0 },
        first_message_time: Timestamp { secs: 1, nanos: 0 },
        latest_payload: Some("{}".to_string()),
    }
}

fn settle(app: &mut App, rows: &Vec<Message>, first: Effect) -> Vec<String> {
    let mut trace = Vec::new();
    let mut effect = first;
    loop {
        match effect {
            Effect::Nothing => return trace,
            Effect::LoadMessages(request) => {
                trace.push(format!(
                    "load {:?}+{:?}",
                    request.page_filter.offset.unwrap(),
                    request.page_filter.limit.unwrap()
                ));
                let page = select_rows(rows.clone(), &request.page_filter);
                let all = select_rows(rows.clone(), &request.count_filter);
                effect = app.resume(Reply::Messages(LoadReply::Rows { page, all }));
            }
            Effect::LoadTopics(_) => {
                trace.push("topics".to_string());
                effect = app.resume(Reply::Topics(Some(vec![
                    topic("sensors/1", rows.len() as i64),
                    topic("sensors/2", 1),
                ])));
            }
            other => {
                trace.push(format!("{:?}", other));
                return trace;
            }
        }
    }
}

fn press(app: &mut App, rows: &Vec<Message>, event: AppEvent) -> Vec<String> {
    let effect = app.handle_event(event);
    settle(app, rows, effect)
}

fn on_topics() -> App {
    let mut app = App::new(Config::default(), 100, 18);
    app.update_visible_rows();
    let rows = stored(25);
    let effect = app.refresh_data();
    settle(&mut app, &rows, effect);
    app
}

fn on_messages(rows: &Vec<Message>) -> App {
    let mut app = on_topics();
    let trace = press(&mut app, rows, AppEvent::Enter);
    assert_eq!(trace, vec!["load 0+10"]);
    assert_eq!(app.get_state(), AppState::MessageList);
    app
}

#[test]
fn a_new_viewer_starts_on_the_topic_list() {
    let app = App::new(Config::default(), 120, 40);
    assert_eq!(app.get_state(), AppState::TopicList);
    assert_eq!(app.get_terminal_size(), (120, 40));
    assert!(app.needs_full_redraw());
    assert_eq!(app.pending, Pending::Idle);
    assert_eq!(app.get_payload_detail_scroll_offset(), 0);
    assert_eq!(app.get_payload_detail_selection(), PayloadDetailSelection::Payload);
    assert!(app.get_prev_filter_state().is_none());
    assert!(app.get_prev_status_bar_state().is_none());
    assert!(app.get_prev_topic_list_state().is_none());
    assert!(app.get_selected_topic().is_none());
    assert!(app.get_selected_message().is_none());
    assert_eq!(app.mqtt_host, "127.0.0.1");
    assert_eq!(app.mqtt_port, 1883);
    assert_eq!(app.refresh_interval_ms, 250);
    let marks = &app.get_status_bar_state().quick_filter_states;
    assert_eq!(marks.len(), 5);
    assert_eq!(marks[2], ("ERROR".to_string(), "red".to_string(), false));
    assert_eq!(
        app.get_status_bar_state().help_text,
        "[/]filter [Enter]select [↑↓]navigate [Home/End]first/last [←]back [F5]refresh [F1]help"
    );
    assert_eq!(app.get_message_list_state().quick_filter_rules.len(), 5);
    assert_eq!(app.get_config().mqtt.client_id, "mqtt_log_viewer");
}

#[test]
fn without_quick_filters_no_marks_are_shown() {
    let mut config = Config::default();
    config.quick_filters.enabled = false;
    let app = App::new(config, 80, 24);
    assert!(app.get_status_bar_state().quick_filter_states.is_empty());
}

#[test]
fn visible_rows_follow_the_terminal() {
    let mut app = App::new(Config::default(), 100, 30);
    app.update_visible_rows();
    assert_eq!(app.get_topic_list_state().visible_rows, 20);
    assert_eq!(app.get_message_list_state().per_page, 22);
    assert_eq!(app.get_payload_detail_page_size(), 23);
    app.set_terminal_size(80, 5);
    app.update_visible_rows();
    assert_eq!(app.get_topic_list_state().visible_rows, 0);
    assert_eq!(app.get_message_list_state().per_page, 0);
    assert_eq!(app.get_payload_detail_page_size(), 0);
}

#[test]
fn a_refresh_of_the_topic_list_takes_in_the_topics() {
    let app = on_topics();
    assert_eq!(app.get_topic_list_state().topics.len(), 2);
    assert_eq!(app.get_status_bar_state().total_topics, 2);
    assert!(app.get_status_bar_state().last_update.is_some());
    assert_eq!(app.get_selected_topic().unwrap().topic, "sensors/1");
}

#[test]
fn a_failed_topic_query_changes_nothing() {
    let mut app = on_topics();
    let effect = app.refresh_data();
    assert!(matches!(effect, Effect::LoadTopics(_)));
    assert_eq!(app.pending, Pending::Topics);
    assert!(matches!(app.resume(Reply::Topics(None)), Effect::Nothing));
    assert_eq!(app.pending, Pending::Idle);
    assert_eq!(app.get_topic_list_state().topics.len(), 2);
}

#[test]
fn enter_opens_the_selected_topic() {
    let rows = stored(25);
    let app = on_messages(&rows);
    let list = app.get_message_list_state();
    assert_eq!(list.current_topic, Some("sensors/1".to_string()));
    assert_eq!(list.per_page, 10);
    assert_eq!(list.messages.len(), 10);
    assert_eq!(list.total_count, 25);
    assert!(app.needs_full_redraw());
    assert_eq!(
        app.get_status_bar_state().help_text,
        "[←]back [/]filter [Enter]view [↑↓]navigate [Home/End]first/last [F2]json [F1]help"
    );
    assert!(matches!(
        &app.get_status_bar_state().current_view,
        ViewType::MessageList(t) if t == "sensors/1"
    ));
    let marks = &app.get_status_bar_state().quick_filter_states;
    assert_eq!(marks[0], ("INFO".to_string(), "light_green".to_string(), true));
}

#[test]
fn a_failed_first_load_stays_on_the_topic_list() {
    let mut app = on_topics();
    let effect = app.handle_event(AppEvent::Enter);
    assert!(matches!(effect, Effect::LoadMessages(_)));
    assert_eq!(app.pending, Pending::EnterTopic);
    assert!(matches!(app.resume(Reply::Messages(LoadReply::Failed)), Effect::Nothing));
    assert_eq!(app.get_state(), AppState::TopicList);
    assert_eq!(app.pending, Pending::Idle);
}

#[test]
fn enter_without_topics_does_nothing() {
    let mut app = App::new(Config::default(), 100, 18);
    assert!(matches!(app.handle_event(AppEvent::Enter), Effect::Nothing));
    assert_eq!(app.get_state(), AppState::TopicList);
}

#[test]
fn the_scenario_runs_through_the_viewer() {
    let rows = stored(25);
    let mut app = on_messages(&rows);
    for _ in 0..9 {
        assert!(press(&mut app, &rows, AppEvent::NavigateDown).is_empty());
    }
    assert_eq!(app.get_selected_message().unwrap().id, Some(10));
    app.set_needs_full_redraw(false);
    assert_eq!(press(&mut app, &rows, AppEvent::NavigateDown), vec!["load 10+10"]);
    assert!(app.needs_full_redraw());
    assert_eq!(app.get_message_list_state().page, 2);
    assert_eq!(app.get_selected_message().unwrap().id, Some(11));
    assert_eq!(press(&mut app, &rows, AppEvent::End), vec!["load 20+10", "load 20+10"]);
    assert_eq!(app.get_message_list_state().page, 3);
    assert_eq!(app.get_message_list_state().selected_index, 4);
    assert_eq!(app.get_selected_message().unwrap().id, Some(25));
    assert_eq!(app.sequence_number(4), 1);
    assert_eq!(app.sequence_number(0), 5);
}

#[test]
fn a_refresh_tick_reloads_only_while_the_newest_row_is_followed() {
    let rows = stored(25);
    let mut app = on_messages(&rows);
    assert_eq!(app.get_message_list_state().page, 1);
    assert_eq!(app.get_message_list_state().selected_index, 0);
    assert!(app.should_auto_update_messages());
    assert!(app.refresh_due(250));
    assert!(!app.refresh_due(249));
    let effect = app.refresh_data();
    assert_eq!(settle(&mut app, &rows, effect), vec!["load 0+10"]);

    for _ in 0..3 {
        press(&mut app, &rows, AppEvent::NavigateDown);
    }
    assert_eq!(app.get_message_list_state().selected_index, 3);
    assert!(!app.should_auto_update_messages());
    assert!(matches!(app.refresh_data(), Effect::Nothing));
    assert_eq!(app.pending, Pending::Idle);

    for _ in 0..3 {
        press(&mut app, &rows, AppEvent::NavigateUp);
    }
    assert!(matches!(app.refresh_data(), Effect::LoadMessages(_)));
}

#[test]
fn a_refresh_tick_takes_in_new_messages_while_following() {
    let mut rows = stored(3);
    let mut app = on_messages(&rows);
    assert_eq!(app.get_message_list_state().total_count, 3);
    rows.insert(
        0,
        Message {
            id: Some(99),
            topic: "sensors/1".to_string(),
            payload: "WARN fresh".to_string(),
            timestamp: Timestamp { secs: 3_000, nanos: 0 },
            qos: 0,
            retain: false,
            created_at: None,
        },
    );
    let effect = app.refresh_data();
    settle(&mut app, &rows, effect);
    assert_eq!(app.get_message_list_state().total_count, 4);
    assert_eq!(app.get_selected_message().unwrap().id, Some(99));
}

#[test]
fn no_refresh_is_due_outside_the_lists() {
    let rows = stored(3);
    let mut app = on_messages(&rows);
    press(&mut app, &rows, AppEvent::Enter);
    assert_eq!(app.get_state(), AppState::PayloadDetail);
    assert!(!app.refresh_due(10_000));
    assert!(matches!(app.refresh_data(), Effect::Nothing));
}

#[test]
fn delete_asks_twice_before_a_message_goes() {
    let rows = stored(5);
    let mut app = on_messages(&rows);
    press(&mut app, &rows, AppEvent::NavigateDown);
    app.set_needs_full_redraw(false);
    assert!(matches!(app.handle_event(AppEvent::Delete), Effect::Nothing));
    assert!(app.get_message_list_state().delete_confirmation);
    assert!(app.needs_full_redraw());
    match app.handle_event(AppEvent::Delete) {
        Effect::DeleteMessage(DeleteTarget::ById(2)) => {}
        other => panic!("unexpected effect {:?}", other),
    }
    assert_eq!(app.pending, Pending::MessageDelete);
    let remaining: Vec<Message> = rows.iter().filter(|m| m.id != Some(2)).cloned().collect();
    let effect = app.resume(Reply::MessageDeleted(Some(true)));
    assert_eq!(settle(&mut app, &remaining, effect), vec!["load 0+10"]);
    assert!(!app.get_message_list_state().delete_confirmation);
    assert_eq!(app.get_message_list_state().total_count, 4);
}

#[test]
fn a_key_between_two_deletes_withdraws_the_confirmation() {
    let rows = stored(5);
    let mut app = on_messages(&rows);
    app.handle_event(AppEvent::Delete);
    assert!(app.get_message_list_state().delete_confirmation);
    press(&mut app, &rows, AppEvent::NavigateDown);
    assert!(!app.get_message_list_state().delete_confirmation);
    assert!(matches!(app.handle_event(AppEvent::Delete), Effect::Nothing));
    assert!(app.get_message_list_state().delete_confirmation);
    press(&mut app, &rows, AppEvent::Refresh);
    assert!(!app.get_message_list_state().delete_confirmation);
}

#[test]
fn deleting_a_topic_asks_twice_too() {
    let rows = stored(5);
    let mut app = on_topics();
    assert!(matches!(app.handle_event(AppEvent::Delete), Effect::Nothing));
    assert!(app.get_topic_list_state().delete_confirmation);
    assert!(!app.get_message_list_state().delete_confirmation);
    match app.handle_event(AppEvent::Delete) {
        Effect::DeleteTopic(name) => assert_eq!(name, "sensors/1"),
        other => panic!("unexpected effect {:?}", other),
    }
    let effect = app.resume(Reply::TopicDeleted(Some(5)));
    assert_eq!(settle(&mut app, &rows, effect), vec!["topics"]);
    assert!(!app.get_topic_list_state().delete_confirmation);

    app.handle_event(AppEvent::Delete);
    app.handle_event(AppEvent::NavigateDown);
    assert!(!app.get_topic_list_state().delete_confirmation);
    app.handle_event(AppEvent::Delete);
    app.handle_event(AppEvent::Delete);
    assert!(matches!(app.resume(Reply::TopicDeleted(None)), Effect::Nothing));
    assert!(!app.get_topic_list_state().delete_confirmation);
}

#[test]
fn the_screens_stack() {
    let rows = stored(5);
    let mut app = on_messages(&rows);
    press(&mut app, &rows, AppEvent::Enter);
    assert_eq!(app.get_state(), AppState::PayloadDetail);
    press(&mut app, &rows, AppEvent::NavigateDown);
    assert_eq!(app.get_payload_detail_scroll_offset(), 1);
    press(&mut app, &rows, AppEvent::Escape);
    assert_eq!(app.get_state(), AppState::MessageList);
    assert_eq!(app.get_payload_detail_scroll_offset(), 0);
    press(&mut app, &rows, AppEvent::NavigateRight);
    assert_eq!(app.get_state(), AppState::PayloadDetail);
    press(&mut app, &rows, AppEvent::NavigateLeft);
    assert_eq!(app.get_state(), AppState::MessageList);
    press(&mut app, &rows, AppEvent::NavigateLeft);
    assert_eq!(app.get_state(), AppState::TopicList);
    assert!(matches!(app.get_status_bar_state().current_view, ViewType::TopicList));
    assert!(matches!(app.handle_event(AppEvent::Escape), Effect::Quit));
    assert!(matches!(app.handle_event(AppEvent::Quit), Effect::Quit));
}

#[test]
fn the_payload_view_scrolls_and_copies() {
    let mut rows = stored(2);
    rows[0].payload = "{\"info\":1}".to_string();
    let mut app = on_messages(&rows);
    assert!(matches!(
        app.handle_event(AppEvent::Copy),
        Effect::CopyText(text) if text == "{\"info\":1}"
    ));
    press(&mut app, &rows, AppEvent::Enter);
    press(&mut app, &rows, AppEvent::PageDown);
    assert_eq!(app.get_payload_detail_scroll_offset(), 11);
    press(&mut app, &rows, AppEvent::NavigateUp);
    assert_eq!(app.get_payload_detail_scroll_offset(), 10);
    press(&mut app, &rows, AppEvent::PageUp);
    assert_eq!(app.get_payload_detail_scroll_offset(), 0);
    press(&mut app, &rows, AppEvent::NavigateUp);
    assert_eq!(app.get_payload_detail_scroll_offset(), 0);
    app.set_payload_detail_scroll_offset(usize::MAX);
    press(&mut app, &rows, AppEvent::NavigateDown);
    assert_eq!(app.get_payload_detail_scroll_offset(), usize::MAX);
    app.clamp_payload_scroll(3);
    assert_eq!(app.get_payload_detail_scroll_offset(), 0);
    app.set_payload_detail_scroll_offset(30);
    app.clamp_payload_scroll(25);
    assert_eq!(app.get_payload_detail_scroll_offset(), 14);

    assert!(matches!(
        app.handle_event(AppEvent::Copy),
        Effect::CopyText(text) if text == "{\"info\":1}"
    ));
    press(&mut app, &rows, AppEvent::Tab);
    assert_eq!(app.get_payload_detail_selection(), PayloadDetailSelection::FormattedJson);
    assert!(matches!(
        app.handle_event(AppEvent::Copy),
        Effect::CopyText(text) if text == "{\n  \"info\": 1\n}"
    ));
    press(&mut app, &rows, AppEvent::Tab);
    assert_eq!(app.get_payload_detail_selection(), PayloadDetailSelection::Topic);
    assert!(matches!(
        app.handle_event(AppEvent::Copy),
        Effect::CopyText(text) if text == "sensors/1"
    ));
    press(&mut app, &rows, AppEvent::Tab);
    assert_eq!(app.get_payload_detail_selection(), PayloadDetailSelection::Payload);
}

#[test]
fn copy_does_nothing_on_the_topic_list() {
    let mut app = on_topics();
    assert!(matches!(app.handle_event(AppEvent::Copy), Effect::Nothing));
}

#[test]
fn a_quick_filter_switch_reloads_and_follows_the_newest_row() {
    let mut rows = stored(12);
    rows[0].payload = "ERROR first".to_string();
    let mut app = on_messages(&rows);
    assert_eq!(press(&mut app, &rows, AppEvent::QuickFilter(0)), vec!["load 0+10"]);
    assert!(!app.get_message_list_state().get_quick_filter_state(0));
    assert_eq!(app.get_status_bar_state().quick_filter_states[0].2, false);
    assert_eq!(app.get_message_list_state().total_count, 1);
    assert_eq!(app.get_selected_message().unwrap().payload, "ERROR first");
    assert_eq!(press(&mut app, &rows, AppEvent::QuickFilter(0)), vec!["load 0+10"]);
    assert_eq!(app.get_message_list_state().total_count, 12);
    assert_eq!(app.get_status_bar_state().quick_filter_states[0].2, true);
    assert_eq!(
        (app.get_message_list_state().page, app.get_message_list_state().selected_index),
        (1, 0)
    );
}

#[test]
fn a_quick_filter_switch_keeps_the_place_of_a_reader() {
    let rows = stored(25);
    let mut app = on_messages(&rows);
    press(&mut app, &rows, AppEvent::PageDown);
    press(&mut app, &rows, AppEvent::NavigateDown);
    assert_eq!(press(&mut app, &rows, AppEvent::QuickFilter(4)), vec!["load 10+10"]);
    assert_eq!(
        (app.get_message_list_state().page, app.get_message_list_state().selected_index),
        (2, 1)
    );
    assert!(press(&mut app, &rows, AppEvent::QuickFilter(7)).len() == 1);
    assert_eq!(app.get_status_bar_state().quick_filter_states.len(), 5);
}

#[test]
fn a_quick_filter_switch_on_the_topic_list_is_kept_for_later() {
    let rows = stored(3);
    let mut app = on_topics();
    assert!(press(&mut app, &rows, AppEvent::QuickFilter(1)).is_empty());
    assert!(!app.get_message_list_state().get_quick_filter_state(1));
    assert_eq!(app.get_status_bar_state().quick_filter_states[1].2, false);
}

#[test]
fn the_filter_bar_opens_edits_and_applies() {
    let rows = stored(3);
    let mut app = on_topics();
    press(&mut app, &rows, AppEvent::Filter);
    assert!(app.get_filter_state().is_editing);
    assert_eq!(app.get_filter_state().active_field, FilterField::Topic);
    assert_eq!(press(&mut app, &rows, AppEvent::Input('s')), vec!["topics"]);
    assert_eq!(press(&mut app, &rows, AppEvent::Input('x')), vec!["topics"]);
    assert_eq!(press(&mut app, &rows, AppEvent::Backspace), vec!["topics"]);
    assert_eq!(app.get_filter_state().topic_filter, "s");
    assert!(press(&mut app, &rows, AppEvent::Space).is_empty());
    assert_eq!(app.get_filter_state().topic_filter, "s ");
    assert!(press(&mut app, &rows, AppEvent::Tab).is_empty());
    assert_eq!(app.get_filter_state().active_field, FilterField::Payload);
    assert!(press(&mut app, &rows, AppEvent::NavigateDown).is_empty());
    assert_eq!(app.get_topic_list_state().selected_index, 1);
    assert!(press(&mut app, &rows, AppEvent::NavigateLeft).is_empty());
    assert_eq!(app.get_filter_state().active_field, FilterField::Topic);
    match app.handle_event(AppEvent::Enter) {
        Effect::LoadTopics(criteria) => {
            assert_eq!(criteria.topic_regex, Some("s ".to_string()));
            assert_eq!(criteria.payload_regex, None);
            assert_eq!(criteria.limit, Some(1000));
            assert_eq!(criteria.offset, Some(0));
        }
        other => panic!("unexpected effect {:?}", other),
    }
    assert!(!app.get_filter_state().is_editing);
}

#[test]
fn tab_on_the_topic_list_opens_the_filter_bar() {
    let rows = stored(3);
    let mut app = on_topics();
    press(&mut app, &rows, AppEvent::Tab);
    assert!(app.get_filter_state().is_editing);
    assert_eq!(app.get_filter_state().active_field, FilterField::Topic);
    press(&mut app, &rows, AppEvent::Escape);
    assert!(!app.get_filter_state().is_editing);
    assert_eq!(app.get_state(), AppState::TopicList);
}

#[test]
fn escape_in_a_field_of_the_message_list_stops_editing() {
    let rows = stored(3);
    let mut app = on_messages(&rows);
    press(&mut app, &rows, AppEvent::Tab);
    assert!(app.get_message_list_state().is_editing);
    assert_eq!(app.get_message_list_state().focus, FocusTarget::PayloadFilter);
    assert_eq!(app.get_message_list_cursor_position(), Some((17, 1)));
    press(&mut app, &rows, AppEvent::Input('I'));
    assert_eq!(app.get_message_list_cursor_position(), Some((18, 1)));
    press(&mut app, &rows, AppEvent::Input('('));
    assert!(app.get_message_list_filter_error().is_some());
    press(&mut app, &rows, AppEvent::Escape);
    assert!(!app.get_message_list_state().is_editing);
    assert_eq!(app.get_state(), AppState::MessageList);
    assert_eq!(app.get_message_list_cursor_position(), None);
}

#[test]
fn paste_goes_through_the_clipboard() {
    let rows = stored(3);
    let mut app = on_messages(&rows);
    press(&mut app, &rows, AppEvent::Tab);
    assert!(matches!(app.handle_event(AppEvent::Paste(String::new())), Effect::ReadClipboard));
    assert_eq!(app.pending, Pending::Paste);
    let effect = app.resume(Reply::Clipboard(Some("reading 2".to_string())));
    assert_eq!(settle(&mut app, &rows, effect), vec!["load 0+10"]);
    assert_eq!(app.get_message_list_state().payload_filter_input, "reading 2");
    assert_eq!(app.get_message_list_state().total_count, 1);
}

#[test]
fn an_answer_that_nobody_waits_for_is_dropped() {
    let rows = stored(3);
    let mut app = on_messages(&rows);
    assert!(matches!(app.resume(Reply::MessageDeleted(Some(true))), Effect::Nothing));
    assert!(matches!(app.resume(Reply::Clipboard(Some("x".to_string()))), Effect::Nothing));
    assert!(matches!(app.resume(Reply::Topics(Some(Vec::new()))), Effect::Nothing));
    assert_eq!(app.get_message_list_state().payload_filter_input, "");
    assert_eq!(app.get_topic_list_state().topics.len(), 2);
    app.handle_event(AppEvent::Tab);
    app.handle_event(AppEvent::Paste(String::new()));
    assert!(matches!(app.resume(Reply::TopicDeleted(Some(1))), Effect::Nothing));
    assert_eq!(app.pending, Pending::Idle);
}

#[test]
fn the_connection_shows_the_configured_broker() {
    let mut app = App::new(Config::default(), 100, 18);
    app.update_connection_status_from_mqtt(true);
    assert!(matches!(
        &app.get_status_bar_state().connection_status,
        ConnectionStatus::Connected(a) if a == "127.0.0.1:1883"
    ));
    app.set_connection_status(ConnectionStatus::Connected("elsewhere:1".to_string()));
    assert!(matches!(
        &app.get_status_bar_state().connection_status,
        ConnectionStatus::Connected(a) if a == "127.0.0.1:1883"
    ));
    app.update_connection_status_from_mqtt(false);
    assert!(matches!(
        app.get_status_bar_state().connection_status,
        ConnectionStatus::Disconnected
    ));
    app.set_connection_status(ConnectionStatus::Error("refused".to_string()));
    assert!(matches!(
        &app.get_status_bar_state().connection_status,
        ConnectionStatus::Error(e) if e == "refused"
    ));
    app.mqtt_port = 0;
    assert_eq!(app.broker(), "127.0.0.1:0");
    app.mqtt_port = 65535;
    assert_eq!(app.broker(), "127.0.0.1:65535");
}

#[test]
fn kept_frames_show_no_change_until_something_changes() {
    let rows = stored(3);
    let mut app = on_topics();
    assert!(app.has_filter_state_changed());
    assert!(app.has_topic_list_state_changed());
    assert!(app.has_status_bar_state_changed());
    app.update_prev_states();
    assert!(!app.has_filter_state_changed());
    assert!(!app.has_topic_list_state_changed());
    assert!(!app.has_status_bar_state_changed());

    press(&mut app, &rows, AppEvent::NavigateDown);
    assert!(app.has_topic_list_state_changed());
    assert!(!app.has_filter_state_changed());
    app.update_prev_states();
    press(&mut app, &rows, AppEvent::Filter);
    assert!(app.has_filter_state_changed());
    press(&mut app, &rows, AppEvent::QuickFilter(0));
    assert!(!app.has_status_bar_state_changed());
    press(&mut app, &rows, AppEvent::QuickFilter(0));
    assert!(app.has_status_bar_state_changed());
    app.update_prev_states();
    assert!(!app.has_status_bar_state_changed());
    app.topic_list_state.topics[0].first_message_time = Timestamp { secs: 77, nanos: 0 };
    assert!(!app.has_topic_list_state_changed());
    app.topic_list_state.topics[0].message_count = 77;
    assert!(app.has_topic_list_state_changed());
}

#[test]
fn a_connection_error_always_counts_as_changed() {
    let mut app = on_topics();
    app.set_connection_status(ConnectionStatus::Error("down".to_string()));
    app.update_prev_states();
    assert!(app.has_status_bar_state_changed());
    app.set_connection_status(ConnectionStatus::Connecting);
    app.update_prev_states();
    assert!(!app.has_status_bar_state_changed());
}

#[test]
fn a_held_key_repeats_after_half_a_second() {
    let mut app = App::new(Config::default(), 100, 18);
    assert!(matches!(app.handle_key_repeat_start(KeyCode::Down, 1_000), Some(AppEvent::NavigateDown)));
    assert!(app.handle_key_repeat_start(KeyCode::Down, 1_010).is_none());
    assert!(app.handle_key_repeat(1_400).is_none());
    assert!(app.handle_key_repeat(1_500).is_none());
    assert!(app.key_repeat_state.is_repeating);
    assert!(app.handle_key_repeat(1_549).is_none());
    assert!(matches!(app.handle_key_repeat(1_550), Some(AppEvent::NavigateDown)));
    assert!(app.handle_key_repeat(1_599).is_none());
    assert!(matches!(app.handle_key_repeat(1_600), Some(AppEvent::NavigateDown)));
    app.handle_key_release(KeyCode::Up);
    assert!(app.key_repeat_state.is_repeating);
    app.handle_key_release(KeyCode::Down);
    assert!(!app.key_repeat_state.is_repeating);
    assert!(app.handle_key_repeat(9_000).is_none());
    assert!(matches!(app.handle_key_repeat_start(KeyCode::PageUp, 10), Some(AppEvent::PageUp)));
    assert!(app.handle_key_repeat_start(KeyCode::Enter, 20).is_none());
    assert!(app.handle_key_repeat(5).is_none());
    assert!(app.handle_key_repeat(5_000).is_none());
    assert!(app.handle_key_repeat(5_050).is_none());
}

#[test]
fn help_and_quit_screens_ignore_keys() {
    let rows = stored(3);
    let mut app = on_topics();
    app.state = AppState::Help;
    assert!(press(&mut app, &rows, AppEvent::NavigateDown).is_empty());
    assert!(press(&mut app, &rows, AppEvent::Refresh).is_empty());
    assert!(press(&mut app, &rows, AppEvent::Copy).is_empty());
    assert_eq!(app.get_state(), AppState::Help);
}

#[test]
fn only_the_regions_that_changed_are_drawn_again() {
    let rows = stored(3);
    let mut app = on_topics();
    let all = Repaint { filter_bar: true, topic_list: true, status_line: true, help_line: true };
    let none = Repaint { filter_bar: false, topic_list: false, status_line: false, help_line: false };
    assert_eq!(app.repaint(), all);
    app.update_prev_states();
    assert_eq!(app.repaint(), all);
    app.set_needs_full_redraw(false);
    assert_eq!(app.repaint(), none);
    press(&mut app, &rows, AppEvent::NavigateDown);
    assert_eq!(app.repaint(), Repaint { topic_list: true, ..none });
    app.update_prev_states();
    press(&mut app, &rows, AppEvent::Filter);
    assert_eq!(app.repaint(), Repaint { filter_bar: true, ..none });
    app.update_prev_states();
    app.update_connection_status_from_mqtt(true);
    assert_eq!(app.repaint(), Repaint { status_line: true, ..none });
    app.update_prev_states();
    press(&mut app, &rows, AppEvent::QuickFilter(2));
    press(&mut app, &rows, AppEvent::QuickFilter(2));
    assert_eq!(app.repaint(), Repaint { help_line: true, ..none });
}

#[test]
fn a_failed_page_turn_leaves_the_screen_as_it_was() {
    let rows = stored(25);
    let mut app = on_messages(&rows);
    for _ in 0..9 {
        press(&mut app, &rows, AppEvent::NavigateDown);
    }
    let effect = app.handle_event(AppEvent::NavigateDown);
    assert!(matches!(effect, Effect::LoadMessages(_)));
    assert!(matches!(app.resume(Reply::Messages(LoadReply::Failed)), Effect::Nothing));
    assert_eq!(app.pending, Pending::Idle);
    let list = app.get_message_list_state();
    assert_eq!((list.page, list.selected_index), (1, 9));
    assert_eq!(list.messages.len(), 10);
    assert_eq!(list.total_count, 25);
    assert_eq!(press(&mut app, &rows, AppEvent::NavigateDown), vec!["load 10+10"]);
    assert_eq!(app.get_message_list_state().page, 2);
}
