use mqtt_log_viewer::app::App;
use mqtt_log_viewer::config::Config;
use mqtt_log_viewer::datetime::Timestamp;
use mqtt_log_viewer::display::{
    count_label, counts_status, empty_field, fit_column, line_number_width, marks_gap, pad,
    page_status, payload_status, signed_text, split_at_cursor, status_tint_of, time_groups,
    tint_of, tint_of_mark, visible_lines, Tint,
};
use mqtt_log_viewer::models::Message;
use mqtt_log_viewer::text::{decimal_text, insert_char, insert_text, remove_char, same, shorten};

fn row(topic: &str, payload: &str) -> Message {
    Message {
        id: None,
        topic: topic.to_string(),
        payload: payload.to_string(),
        timestamp: Timestamp { secs: 0, nanos: 0 },
        qos: 0,
        retain: true,
        created_at: None,
    }
}

#[test]
fn rules_name_their_colours_in_lower_case() {
    assert_eq!(tint_of("red"), Some(Tint::Red));
    assert_eq!(tint_of("green"), Some(Tint::Green));
    assert_eq!(tint_of("light_green"), Some(Tint::DarkGreen));
    assert_eq!(tint_of("yellow"), Some(Tint::Yellow));
    assert_eq!(tint_of("blue"), Some(Tint::Blue));
    assert_eq!(tint_of("cyan"), Some(Tint::Cyan));
    assert_eq!(tint_of("magenta"), Some(Tint::Magenta));
    assert_eq!(tint_of("white"), Some(Tint::White));
    assert_eq!(tint_of("dark_grey"), Some(Tint::DarkGrey));
    assert_eq!(tint_of("grey"), Some(Tint::Grey));
    assert_eq!(tint_of("Red"), None);
    assert_eq!(tint_of(""), None);
    assert_eq!(tint_of("purple"), None);
}

#[test]
fn a_message_takes_the_colour_of_the_first_rule_that_matches() {
    let app = App::new(Config::default(), 80, 24);
    assert_eq!(app.get_message_color(&row("t", "an error in info")), Some(Tint::DarkGreen));
    assert_eq!(app.get_message_color(&row("t", "an error")), Some(Tint::Red));
    assert_eq!(app.get_message_color(&row("warn/x", "quiet")), Some(Tint::Yellow));
    assert_eq!(app.get_message_color(&row("t", "debug trace")), Some(Tint::DarkGrey));
    assert_eq!(app.get_message_color(&row("t", "quiet")), None);

    let mut config = Config::default();
    config.quick_filters.filters[2].color = "unknown".to_string();
    let app = App::new(config, 80, 24);
    assert_eq!(app.get_message_color(&row("t", "an error")), None);

    let mut config = Config::default();
    config.quick_filters.enabled = false;
    let app = App::new(config, 80, 24);
    assert_eq!(app.get_message_color(&row("t", "an error")), None);
}

#[test]
fn running_numbers_count_down_from_the_total() {
    let mut app = App::new(Config::default(), 80, 24);
    app.message_list_state.total_count = 25;
    app.message_list_state.per_page = 10;
    app.message_list_state.page = 1;
    assert_eq!(app.sequence_number(0), 25);
    assert_eq!(app.sequence_number(9), 16);
    app.message_list_state.page = 3;
    assert_eq!(app.sequence_number(0), 5);
    assert_eq!(app.sequence_number(4), 1);
    assert_eq!(app.sequence_number(5), 1);
    assert_eq!(app.sequence_number(usize::MAX), 1);
    app.message_list_state.page = usize::MAX;
    app.message_list_state.per_page = usize::MAX;
    assert_eq!(app.sequence_number(0), 1);
    app.message_list_state.page = 0;
    assert_eq!(app.sequence_number(3), 22);
}

#[test]
fn the_payload_view_shows_json_indented_and_text_as_it_is() {
    let app = App::new(Config::default(), 80, 24);
    assert_eq!(
        app.format_payload_content(r#"{"a":{"b":[1,2]}}"#),
        vec!["{", "  \"a\": {", "    \"b\": [", "      1,", "      2", "    ]", "  }", "}"]
    );
    assert_eq!(app.format_payload_content("one\ntwo\r\nthree\n"), vec!["one", "two", "three"]);
    assert_eq!(app.format_payload_content("a\n\nb\r"), vec!["a", "", "b\r"]);
    assert_eq!(app.format_payload_content(""), Vec::<String>::new());
    assert_eq!(app.format_payload_content("\n"), vec![""]);
}

#[test]
fn columns_are_cut_or_filled() {
    assert_eq!(pad("ab", 5), "ab   ");
    assert_eq!(pad("abcdef", 5), "abcdef");
    assert_eq!(pad("", 0), "");
    assert_eq!(fit_column("ab", 5), "ab   ");
    assert_eq!(fit_column("abcde", 5), "abcde");
    assert_eq!(fit_column("abcdef", 5), "ab...");
    assert_eq!(fit_column("äöüßéè", 5), "äö...");
    assert_eq!(fit_column("abcdef", 2), "...");
}

#[test]
fn line_numbers_need_as_many_columns_as_digits() {
    assert_eq!(line_number_width(0), 1);
    assert_eq!(line_number_width(9), 1);
    assert_eq!(line_number_width(10), 2);
    assert_eq!(line_number_width(99), 2);
    assert_eq!(line_number_width(100), 3);
    assert_eq!(line_number_width(123_456), 6);
    assert_eq!(line_number_width(usize::MAX), usize::MAX.to_string().len());
}

#[test]
fn text_helpers_count_characters() {
    assert_eq!(insert_char("héllo", 2, 'X'), "héXllo");
    assert_eq!(insert_char("", 0, 'X'), "X");
    assert_eq!(insert_char("ab", 2, 'X'), "abX");
    assert_eq!(insert_text("héllo", 1, "√√"), "h√√éllo");
    assert_eq!(insert_text("ab", 2, ""), "ab");
    assert_eq!(remove_char("héllo", 1), "hllo");
    assert_eq!(remove_char("a", 0), "");
    assert_eq!(shorten("héllo wörld", 8), "héllo...");
    assert_eq!(shorten("héllo", 5), "héllo");
    assert_eq!(shorten("héllo", 0), "...");
    assert_eq!(decimal_text(0), "0");
    assert_eq!(decimal_text(7), "7");
    assert_eq!(decimal_text(1883), "1883");
    assert_eq!(decimal_text(u64::MAX), "18446744073709551615");
    assert!(same("abc", "abc"));
    assert!(!same("abc", "abd"));
    assert!(!same("abc", "ab"));
}

#[test]
fn counts_above_four_digits_are_cut() {
    assert_eq!(count_label(0), "0");
    assert_eq!(count_label(9999), "9999");
    assert_eq!(count_label(10_000), "9999+");
    assert_eq!(count_label(i64::MAX), "9999+");
    assert_eq!(count_label(-3), "-3");
    assert_eq!(signed_text(i64::MIN), "-9223372036854775808");
    assert_eq!(signed_text(i64::MAX), "9223372036854775807");
    assert_eq!(signed_text(-10), "-10");
}

#[test]
fn a_time_text_has_six_groups_at_fixed_places() {
    assert_eq!(
        time_groups("2024-03-15 10:20:30"),
        Some(vec![
            "2024".to_string(),
            "03".to_string(),
            "15".to_string(),
            "10".to_string(),
            "20".to_string(),
            "30".to_string()
        ])
    );
    assert_eq!(time_groups("2024-03-15 10:20:3"), None);
    assert_eq!(time_groups(""), None);
    assert_eq!(
        time_groups("abcdefghijklmnopqrstuvw").unwrap(),
        vec!["abcd", "fg", "ij", "lm", "op", "rs"]
    );
}

#[test]
fn marks_stand_at_the_right_end_if_there_is_room() {
    assert_eq!(marks_gap(100, 60, 30), 7);
    assert_eq!(marks_gap(93, 60, 30), 0);
    assert_eq!(marks_gap(10, 60, 30), 0);
    assert_eq!(marks_gap(usize::MAX, usize::MAX, usize::MAX), 0);
    assert_eq!(marks_gap(usize::MAX, 0, 0), usize::MAX - 3);
}

#[test]
fn the_range_of_lines_is_shown_for_long_payloads_only() {
    assert_eq!(visible_lines(0, 10, 25), Some((1, 10)));
    assert_eq!(visible_lines(15, 10, 25), Some((16, 25)));
    assert_eq!(visible_lines(20, 10, 25), Some((21, 25)));
    assert_eq!(visible_lines(0, 10, 10), None);
    assert_eq!(visible_lines(0, 10, 0), None);
    assert_eq!(visible_lines(3, 0, 5), Some((4, 3)));
    assert_eq!(visible_lines(25, 10, 25), Some((26, 25)));
    assert_eq!(visible_lines(40, 10, 25), Some((41, 25)));
    assert_eq!(visible_lines(usize::MAX, 10, 25), Some((usize::MAX, 25)));
    assert_eq!(visible_lines(usize::MAX, usize::MAX, 2), None);
}

#[test]
fn marks_of_the_status_rows_name_their_colours_capitalised() {
    assert_eq!(status_tint_of("Green"), Tint::Green);
    assert_eq!(status_tint_of("Yellow"), Tint::Yellow);
    assert_eq!(status_tint_of("Red"), Tint::Red);
    assert_eq!(status_tint_of("Blue"), Tint::Blue);
    assert_eq!(status_tint_of("Cyan"), Tint::Cyan);
    assert_eq!(status_tint_of("Magenta"), Tint::Magenta);
    assert_eq!(status_tint_of("red"), Tint::White);
    assert_eq!(status_tint_of(""), Tint::White);
    assert_eq!(tint_of_mark(true, Some(Tint::Red)), Tint::Red);
    assert_eq!(tint_of_mark(true, None), Tint::White);
    assert_eq!(tint_of_mark(false, Some(Tint::Red)), Tint::DarkGrey);
    assert_eq!(tint_of_mark(false, None), Tint::DarkGrey);
}

#[test]
fn an_empty_field_tells_its_state() {
    assert_eq!(empty_field(false, false), "___________________");
    assert_eq!(empty_field(false, true), "___________________");
    assert_eq!(empty_field(true, true), "<<<EDITING>>>");
    assert_eq!(empty_field(true, false), "<<<FOCUS>>>");
}

#[test]
fn status_lines_spell_out_their_numbers() {
    assert_eq!(page_status(2, 3, 10, "sensors/1"), "Page 2/3 | 10 messages | Topic: sensors/1");
    assert_eq!(page_status(1, 1, 0, ""), "Page 1/1 | 0 messages | Topic: ");
    assert_eq!(counts_status(12, 3456), "12 topics | 3456 messages");
    assert_eq!(counts_status(0, -1), "0 topics | -1 messages");
    assert_eq!(
        payload_status(120, Some((11, 20)), 45, "a/b"),
        "Payload: 120 bytes | Lines: 11-20/45 | Topic: a/b"
    );
    assert_eq!(payload_status(7, None, 1, "a/b"), "Payload: 7 bytes | Lines: 1 | Topic: a/b");
}

#[test]
fn a_text_is_split_at_the_cursor() {
    let split = |text: &str, at: usize| {
        let (a, b, c) = split_at_cursor(text, at);
        format!("{}|{}|{}", a, b, c)
    };
    assert_eq!(split("héllo", 0), "|h|éllo");
    assert_eq!(split("héllo", 1), "h|é|llo");
    assert_eq!(split("héllo", 4), "héll|o|");
    assert_eq!(split("héllo", 5), "héllo| |");
    assert_eq!(split("héllo", 9), "héllo| |");
    assert_eq!(split("", 0), "| |");
}

fn lines_by_rule(text: &str) -> Vec<String> {
    let mut lines = Vec::new();
    let mut rest: Vec<char> = text.chars().collect();
    while !rest.is_empty() {
        match rest.iter().position(|c| *c == '\n') {
            Some(at) => {
                let mut line: Vec<char> = rest[..at].to_vec();
                if line.last() == Some(&'\r') {
                    line.pop();
                }
                lines.push(line.into_iter().collect());
                rest = rest[at + 1..].to_vec();
            }
            None => {
                lines.push(rest.iter().collect());
                rest.clear();
            }
        }
    }
    lines
}

#[test]
fn lines_are_split_by_the_stated_rule() {
    let app = App::new(Config::default(), 80, 24);
    let alphabet = ['a', '\r', '\n', ' '];
    let mut texts: Vec<String> = vec![String::new()];
    let mut from = 0;
    for _ in 0..6 {
        let upto = texts.len();
        for i in from..upto {
            for c in alphabet {
                let mut longer = texts[i].clone();
                longer.push(c);
                texts.push(longer);
            }
        }
        from = upto;
    }
    assert_eq!(texts.len(), 5461);
    for text in texts {
        assert_eq!(app.format_payload_content(&text), lines_by_rule(&text), "{:?}", text);
    }
}
