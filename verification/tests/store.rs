use mqtt_log_viewer::datetime::Timestamp;
use mqtt_log_viewer::models::{FilterCriteria, Message};
use mqtt_log_viewer::store::{cut_window, filter_by_payload, select_rows};

fn rows(count: i64) -> Vec<Message> {
    (0..count)
        .map(|i| Message {
            id: Some(i),
            topic: "t".to_string(),
            payload: format!("value={}", i),
            timestamp: Timestamp { secs: 100 - i, nanos: 0 },
            qos: 0,
            retain: false,
            created_at: None,
        })
        .collect()
}

fn ids(rows: &Vec<Message>) -> Vec<i64> {
    rows.iter().map(|m| m.id.unwrap()).collect()
}

fn criteria(pattern: Option<&str>, offset: Option<i64>, limit: Option<i64>) -> FilterCriteria {
    FilterCriteria {
        topic_regex: None,
        payload_regex: pattern.map(|p| p.to_string()),
        start_time: None,
        end_time: None,
        limit,
        offset,
    }
}

#[test]
fn the_window_is_cut_after_the_offset() {
    assert_eq!(ids(&cut_window(rows(10), Some(3), Some(4))), vec![3, 4, 5, 6]);
    assert_eq!(ids(&cut_window(rows(10), Some(8), Some(4))), vec![8, 9]);
    assert_eq!(ids(&cut_window(rows(10), Some(10), Some(4))), Vec::<i64>::new());
    assert_eq!(ids(&cut_window(rows(10), Some(11), None)), Vec::<i64>::new());
    assert_eq!(ids(&cut_window(rows(3), None, None)), vec![0, 1, 2]);
    assert_eq!(ids(&cut_window(rows(3), None, Some(0))), Vec::<i64>::new());
    assert_eq!(ids(&cut_window(rows(3), Some(0), Some(3))), vec![0, 1, 2]);
}

#[test]
fn a_negative_offset_leaves_nothing_and_a_negative_limit_everything() {
    assert_eq!(ids(&cut_window(rows(5), Some(-1), Some(2))), Vec::<i64>::new());
    assert_eq!(ids(&cut_window(rows(5), Some(1), Some(-1))), vec![1, 2, 3, 4]);
    assert_eq!(ids(&cut_window(rows(5), Some(i64::MIN), None)), Vec::<i64>::new());
    assert_eq!(ids(&cut_window(rows(5), Some(i64::MAX), Some(i64::MAX))), Vec::<i64>::new());
}

#[test]
fn the_pattern_is_matched_against_the_payload() {
    let kept = filter_by_payload(rows(25), &Some("=1".to_string()));
    assert_eq!(ids(&kept), vec![1, 10, 11, 12, 13, 14, 15, 16, 17, 18, 19]);
    let kept = filter_by_payload(rows(25), &Some("^value=2[0-3]$".to_string()));
    assert_eq!(ids(&kept), vec![20, 21, 22, 23]);
    let kept = filter_by_payload(rows(5), &Some("nothing".to_string()));
    assert!(kept.is_empty());
}

#[test]
fn a_pattern_that_does_not_compile_filters_nothing() {
    let kept = filter_by_payload(rows(5), &Some("value=(".to_string()));
    assert_eq!(ids(&kept), vec![0, 1, 2, 3, 4]);
    let kept = filter_by_payload(rows(5), &None);
    assert_eq!(ids(&kept), vec![0, 1, 2, 3, 4]);
    let kept = filter_by_payload(Vec::new(), &Some("(".to_string()));
    assert!(kept.is_empty());
}

#[test]
fn the_window_is_cut_out_of_the_matching_rows() {
    let out = select_rows(rows(25), &criteria(Some("=1"), Some(2), Some(3)));
    assert_eq!(ids(&out), vec![11, 12, 13]);
    let out = select_rows(rows(25), &criteria(None, Some(20), Some(10)));
    assert_eq!(ids(&out), vec![20, 21, 22, 23, 24]);
    let out = select_rows(rows(25), &criteria(Some("=1"), None, None));
    assert_eq!(out.len(), 11);
}

#[test]
fn pages_neither_overlap_nor_leave_a_gap() {
    let mut seen = Vec::new();
    for page in 0..4 {
        let out = select_rows(rows(25), &criteria(None, Some(page * 7), Some(7)));
        seen.extend(ids(&out));
    }
    assert_eq!(seen, (0..25).collect::<Vec<i64>>());
}
