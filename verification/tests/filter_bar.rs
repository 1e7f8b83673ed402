use mqtt_log_viewer::datetime::{DateTimeParts, TimeEditPosition};
use mqtt_log_viewer::events::AppEvent;
use mqtt_log_viewer::filter_bar::{states_equal_filter, FilterBar, FilterField, FilterState};

fn bar() -> FilterState {
    FilterState::with_time_window("2024-03-15 10:20:30".to_string(), String::new())
}

#[test]
fn a_fresh_bar_spans_two_days_around_now() {
    let state = FilterState::default();
    assert_eq!(state.topic_filter, "");
    assert_eq!(state.payload_filter, "");
    assert_eq!(state.start_time.chars().count(), 19);
    assert_eq!(state.end_time.chars().count(), 19);
    assert!(state.start_time < state.end_time);
    assert_eq!(state.active_field, FilterField::Topic);
    assert!(!state.is_editing);
    assert!(!state.time_edit_mode);
    assert_eq!(state.time_edit_position, TimeEditPosition::Year);
    assert_eq!(state.temp_datetime, None);
    assert!(state.has_filters());
}

#[test]
fn fields_cycle_in_both_directions() {
    let mut state = bar();
    let order = [FilterField::Payload, FilterField::StartTime, FilterField::EndTime, FilterField::Topic];
    for expected in order {
        state.next_field();
        assert_eq!(state.active_field, expected);
    }
    let back = [FilterField::EndTime, FilterField::StartTime, FilterField::Payload, FilterField::Topic];
    for expected in back {
        state.previous_field();
        assert_eq!(state.active_field, expected);
    }
}

#[test]
fn the_active_field_takes_the_text() {
    let mut state = bar();
    state.push_char('a');
    state.push_char('é');
    assert_eq!(state.topic_filter, "aé");
    assert_eq!(state.get_active_field_value(), "aé");
    state.pop_char();
    assert_eq!(state.topic_filter, "a");
    state.pop_char();
    state.pop_char();
    assert_eq!(state.topic_filter, "");
    state.next_field();
    state.set_active_field_value("x.*".to_string());
    assert_eq!(state.payload_filter, "x.*");
    assert!(state.has_filters());
    state.clear_all();
    assert!(!state.has_filters());
    assert_eq!(state.start_time, "");
}

#[test]
fn the_wheel_of_the_bar_turns_like_that_of_the_list() {
    let mut state = bar();
    state.is_editing = true;
    state.active_field = FilterField::StartTime;
    state.enter_time_edit_mode();
    assert!(state.time_edit_mode);
    assert_eq!(state.time_edit_position, TimeEditPosition::Day);
    assert_eq!(
        state.temp_datetime,
        Some(DateTimeParts { year: 2024, month: 3, day: 15, hour: 10, minute: 20, second: 30 })
    );
    state.adjust_time_value(-10);
    assert_eq!(state.start_time, "2024-03-05 10:20:30");
    state.adjust_time_value(-10);
    assert_eq!(state.start_time, "2024-03-05 10:20:30");
    state.prev_time_position();
    state.adjust_time_value(10);
    assert_eq!(state.start_time, "2024-03-05 10:20:30");
    state.adjust_time_value(9);
    assert_eq!(state.start_time, "2024-12-05 10:20:30");
    state.next_time_position();
    state.next_time_position();
    assert_eq!(state.time_edit_position, TimeEditPosition::Hour);
    state.toggle_time_edit_mode();
    assert!(!state.time_edit_mode);
    assert_eq!(state.temp_datetime, None);
    state.adjust_time_value(1);
    assert_eq!(state.start_time, "2024-12-05 10:20:30");
}

#[test]
fn the_wheel_needs_a_time_field() {
    let mut state = bar();
    state.enter_time_edit_mode();
    state.toggle_time_edit_mode();
    assert!(!state.time_edit_mode);
    state.active_field = FilterField::EndTime;
    state.toggle_time_edit_mode();
    assert!(state.time_edit_mode);
    assert_eq!(state.end_time.chars().count(), 19);
    assert!(state.temp_datetime.is_some());
}

#[test]
fn keys_of_the_bar_edit_text_fields() {
    let mut state = bar();
    state.is_editing = true;
    assert!(!state.handle_key(&AppEvent::Input('a')));
    assert!(!state.handle_key(&AppEvent::Space));
    assert!(!state.handle_key(&AppEvent::Input('\0')));
    assert!(!state.handle_key(&AppEvent::Input('b')));
    assert_eq!(state.topic_filter, "a b");
    assert!(!state.handle_key(&AppEvent::Backspace));
    assert_eq!(state.topic_filter, "a ");
    assert!(!state.handle_key(&AppEvent::NavigateRight));
    assert_eq!(state.active_field, FilterField::Payload);
    assert!(!state.handle_key(&AppEvent::NavigateLeft));
    assert_eq!(state.active_field, FilterField::Topic);
    assert!(!state.handle_key(&AppEvent::Tab));
    assert!(!state.handle_key(&AppEvent::Home));
    assert_eq!(state.active_field, FilterField::Payload);
}

#[test]
fn keys_of_the_bar_work_the_wheel() {
    let mut state = bar();
    state.is_editing = true;
    state.active_field = FilterField::StartTime;
    assert!(!state.handle_key(&AppEvent::NavigateUp));
    assert!(state.time_edit_mode);
    assert_eq!(state.start_time, "2024-03-14 10:20:30");
    assert!(!state.handle_key(&AppEvent::PageDown));
    assert_eq!(state.start_time, "2024-03-24 10:20:30");
    assert!(!state.handle_key(&AppEvent::NavigateRight));
    assert_eq!(state.time_edit_position, TimeEditPosition::Hour);
    assert!(!state.handle_key(&AppEvent::NavigateLeft));
    assert!(!state.handle_key(&AppEvent::Escape));
    assert!(!state.time_edit_mode);
    assert_eq!(state.start_time, "2024-03-24 10:20:30");
    assert!(!state.handle_key(&AppEvent::Space));
    assert!(state.time_edit_mode);
    assert!(state.handle_key(&AppEvent::Space));
    assert!(!state.time_edit_mode);
    assert!(!state.handle_key(&AppEvent::NavigateLeft));
    assert_eq!(state.time_edit_position, TimeEditPosition::Month);
    assert!(state.handle_key(&AppEvent::Enter));
    assert!(!state.time_edit_mode);
    assert!(!state.handle_key(&AppEvent::NavigateDown));
    assert!(state.handle_key(&AppEvent::Tab));
    assert!(!state.time_edit_mode);
    assert_eq!(state.active_field, FilterField::EndTime);
    assert!(!state.handle_key(&AppEvent::Tab));
    assert_eq!(state.active_field, FilterField::Topic);
}

#[test]
fn the_cursor_of_the_bar_sits_behind_the_text_or_on_the_wheel() {
    let mut state = bar();
    assert_eq!(FilterBar::get_cursor_position(&state, 0), None);
    state.is_editing = true;
    assert_eq!(FilterBar::get_cursor_position(&state, 0), Some((17, 2)));
    state.topic_filter = "abc".to_string();
    assert_eq!(FilterBar::get_cursor_position(&state, 3), Some((20, 5)));
    state.topic_filter = "a".repeat(40);
    assert_eq!(FilterBar::get_cursor_position(&state, 0), Some((36, 2)));
    state.next_field();
    assert_eq!(FilterBar::get_cursor_position(&state, 0), Some((19, 3)));
    state.next_field();
    assert_eq!(FilterBar::get_cursor_position(&state, 0), Some((13 + 19, 4)));
    state.enter_time_edit_mode();
    assert_eq!(FilterBar::get_cursor_position(&state, 0), Some((13 + 9, 4)));
    state.next_time_position();
    state.next_time_position();
    state.next_time_position();
    assert_eq!(FilterBar::get_cursor_position(&state, 1), Some((13 + 18, 5)));
    state.toggle_time_edit_mode();
    state.next_field();
    assert_eq!(FilterBar::get_cursor_position(&state, 0), Some((38, 4)));
}

#[test]
fn frames_of_the_bar_compare_texts_field_and_editing_only() {
    let a = bar();
    let mut b = a.snapshot();
    assert!(states_equal_filter(&a, &b));
    assert!(!FilterBar::needs_redraw(&a, Some(&b)));
    assert!(FilterBar::needs_redraw(&a, None));
    b.time_edit_mode = true;
    b.time_edit_position = TimeEditPosition::Second;
    b.temp_datetime = Some(DateTimeParts { year: 1, month: 1, day: 1, hour: 0, minute: 0, second: 0 });
    assert!(states_equal_filter(&a, &b));
    b.is_editing = true;
    assert!(!states_equal_filter(&a, &b));
    b.is_editing = false;
    b.active_field = FilterField::Payload;
    assert!(!states_equal_filter(&a, &b));
    b.active_field = FilterField::Topic;
    b.end_time = "x".to_string();
    assert!(FilterBar::needs_redraw(&a, Some(&b)));
    b.end_time = String::new();
    b.topic_filter = "t".to_string();
    assert!(!states_equal_filter(&a, &b));
}

#[test]
fn the_active_field_can_be_written_to() {
    let mut state = bar();
    state.get_active_field_value_mut().push_str("top");
    assert_eq!(state.topic_filter, "top");
    state.active_field = FilterField::EndTime;
    state.get_active_field_value_mut().push('x');
    assert_eq!(state.end_time, "x");
}

#[test]
fn the_wheel_of_the_bar_seeds_from_the_clock_when_the_text_is_no_date() {
    let noon = DateTimeParts { year: 2031, month: 7, day: 4, hour: 12, minute: 0, second: 5 };
    let mut state = FilterState::with_time_window("soon".to_string(), String::new());
    state.active_field = FilterField::StartTime;
    state.enter_time_edit_mode_at(Some(noon));
    assert!(state.time_edit_mode);
    assert_eq!(state.temp_datetime, Some(noon));
    assert_eq!(state.start_time, "2031-07-04 12:00:05");
    state.adjust_time_value(1);
    assert_eq!(state.start_time, "2031-07-05 12:00:05");

    let mut state = FilterState::with_time_window("soon".to_string(), String::new());
    state.active_field = FilterField::StartTime;
    state.enter_time_edit_mode();
    assert!(state.temp_datetime.unwrap().check_valid());
    assert_eq!(state.start_time.chars().count(), 19);

    let mut state = FilterState::with_time_window("soon".to_string(), String::new());
    state.active_field = FilterField::StartTime;
    state.enter_time_edit_mode_at(None);
    assert_eq!(state.temp_datetime, None);
    assert_eq!(state.start_time, "soon");
}
