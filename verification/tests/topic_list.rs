use mqtt_log_viewer::datetime::Timestamp;
use mqtt_log_viewer::models::TopicStat;
use mqtt_log_viewer::topic_list::TopicListState;

fn topics(count: i64) -> Vec<TopicStat> {
    (0..count)
        .map(|i| TopicStat {
            topic: format!("topic/{}", i),
            message_count: i,
            last_message_time: Timestamp { secs: 1000 - i, nanos: 0 },
            first_message_time: Timestamp { secs: 0, nanos: 0 },
            latest_payload: None,
        })
        .collect()
}

fn list(count: i64, visible: usize) -> TopicListState {
    let mut state = TopicListState::default();
    state.set_visible_rows(visible);
    state.update_topics(topics(count));
    state
}

#[test]
fn a_fresh_topic_list_is_empty() {
    let state = TopicListState::default();
    assert!(state.topics.is_empty());
    assert_eq!(state.selected_index, 0);
    assert_eq!(state.scroll_offset, 0);
    assert_eq!(state.visible_rows, 10);
    assert!(!state.delete_confirmation);
    assert!(state.get_selected_topic().is_none());
}

#[test]
fn the_window_follows_the_selection() {
    let mut state = list(30, 5);
    for _ in 0..4 {
        state.move_down();
    }
    assert_eq!((state.selected_index, state.scroll_offset), (4, 0));
    state.move_down();
    assert_eq!((state.selected_index, state.scroll_offset), (5, 1));
    state.move_to_bottom();
    assert_eq!((state.selected_index, state.scroll_offset), (29, 25));
    state.move_up();
    assert_eq!((state.selected_index, state.scroll_offset), (28, 25));
    state.move_to_top();
    assert_eq!((state.selected_index, state.scroll_offset), (0, 0));
    state.move_up();
    assert_eq!((state.selected_index, state.scroll_offset), (0, 0));
}

#[test]
fn page_keys_jump_one_row_less_than_the_window() {
    let mut state = list(30, 5);
    state.page_down();
    assert_eq!((state.selected_index, state.scroll_offset), (4, 0));
    state.page_down();
    assert_eq!((state.selected_index, state.scroll_offset), (8, 4));
    state.page_up();
    assert_eq!((state.selected_index, state.scroll_offset), (4, 4));
    state.page_up();
    assert_eq!((state.selected_index, state.scroll_offset), (0, 0));
    state.move_to_bottom();
    state.page_down();
    assert_eq!(state.selected_index, 29);
    let mut short = list(3, 5);
    short.page_down();
    assert_eq!(short.selected_index, 2);
}

#[test]
fn moves_on_an_empty_topic_list_do_nothing() {
    let mut state = TopicListState::default();
    state.move_down();
    state.move_up();
    state.move_to_top();
    state.move_to_bottom();
    state.page_down();
    state.page_up();
    assert_eq!((state.selected_index, state.scroll_offset), (0, 0));
}

#[test]
fn new_topics_keep_or_clamp_the_selection() {
    let mut state = list(10, 5);
    state.move_to_bottom();
    assert_eq!(state.selected_index, 9);
    state.update_topics(topics(4));
    assert_eq!((state.selected_index, state.scroll_offset), (3, 3));
    assert_eq!(state.get_selected_topic().unwrap().topic, "topic/3");
    state.update_topics(topics(8));
    assert_eq!(state.selected_index, 3);
    state.update_topics(Vec::new());
    assert_eq!(state.selected_index, 3);
    assert!(state.get_selected_topic().is_none());
    state.update_topics(topics(2));
    assert_eq!((state.selected_index, state.scroll_offset), (0, 0));
}

#[test]
fn a_window_without_rows_sits_on_the_selection() {
    let mut state = list(10, 0);
    state.move_down();
    state.move_down();
    assert_eq!((state.selected_index, state.scroll_offset), (2, 2));
    state.set_visible_rows(1);
    assert_eq!((state.selected_index, state.scroll_offset), (2, 2));
    state.set_visible_rows(4);
    state.move_to_bottom();
    assert_eq!((state.selected_index, state.scroll_offset), (9, 6));
}

#[test]
fn a_snapshot_holds_the_same_topics() {
    let state = list(3, 5);
    let copy = state.snapshot();
    assert_eq!(copy.topics.len(), 3);
    assert_eq!(copy.topics[2].topic, "topic/2");
    assert_eq!(copy.selected_index, state.selected_index);
    assert_eq!(copy.visible_rows, 5);
}
