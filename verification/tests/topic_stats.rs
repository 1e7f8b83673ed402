use mqtt_log_viewer::datetime::Timestamp;
use mqtt_log_viewer::models::{FilterCriteria, Message, TopicStat};
use mqtt_log_viewer::topic_stats::{group_by_topic, topic_stats};

fn row(topic: &str, payload: &str, secs: i64) -> Message {
    Message {
        id: None,
        topic: topic.to_string(),
        payload: payload.to_string(),
        timestamp: Timestamp { secs, nanos: 0 },
        qos: 0,
        retain: false,
        created_at: None,
    }
}

fn criteria(topic: Option<&str>, payload: Option<&str>, limit: Option<i64>) -> FilterCriteria {
    FilterCriteria {
        topic_regex: topic.map(|t| t.to_string()),
        payload_regex: payload.map(|p| p.to_string()),
        start_time: None,
        end_time: None,
        limit,
        offset: None,
    }
}

fn rows() -> Vec<Message> {
    vec![
        row("b", "b3", 50),
        row("a", "a2", 40),
        row("c", "c1", 40),
        row("b", "b2", 30),
        row("a", "a1", 20),
        row("b", "b1", 10),
    ]
}

fn names(stats: &Vec<TopicStat>) -> Vec<&str> {
    stats.iter().map(|s| s.topic.as_str()).collect()
}

#[test]
fn rows_are_summed_up_by_topic() {
    let stats = group_by_topic(&rows());
    assert_eq!(names(&stats), vec!["b", "a", "c"]);
    assert_eq!(stats[0].message_count, 3);
    assert_eq!(stats[0].last_message_time, Timestamp { secs: 50, nanos: 0 });
    assert_eq!(stats[0].first_message_time, Timestamp { secs: 10, nanos: 0 });
    assert_eq!(stats[0].latest_payload, Some("b3".to_string()));
    assert_eq!(stats[1].message_count, 2);
    assert_eq!(stats[1].latest_payload, Some("a2".to_string()));
    assert_eq!(stats[2].message_count, 1);
    assert_eq!(stats[2].first_message_time, stats[2].last_message_time);
    assert!(group_by_topic(&Vec::new()).is_empty());
}

#[test]
fn the_newest_row_wins_whatever_the_order_of_the_rows() {
    let unordered = vec![
        row("a", "old", 10),
        row("a", "new", 30),
        row("a", "middle", 20),
        row("a", "also new", 30),
    ];
    let stats = group_by_topic(&unordered);
    assert_eq!(stats.len(), 1);
    assert_eq!(stats[0].message_count, 4);
    assert_eq!(stats[0].last_message_time, Timestamp { secs: 30, nanos: 0 });
    assert_eq!(stats[0].first_message_time, Timestamp { secs: 10, nanos: 0 });
    assert_eq!(stats[0].latest_payload, Some("also new".to_string()));
}

#[test]
fn topics_come_most_recently_active_first() {
    let mixed = vec![
        row("old", "x", 5),
        row("new", "x", 90),
        row("mid", "x", 50),
        row("old", "y", 6),
        row("tie", "x", 50),
        row("newest", "x", 99),
    ];
    let stats = topic_stats(mixed, &criteria(None, None, None));
    assert_eq!(names(&stats), vec!["newest", "new", "mid", "tie", "old"]);
}

#[test]
fn the_limit_keeps_the_most_recently_active_topics() {
    let stats = topic_stats(rows(), &criteria(None, None, Some(2)));
    assert_eq!(names(&stats), vec!["b", "a"]);
    assert_eq!(topic_stats(rows(), &criteria(None, None, Some(0))).len(), 0);
    assert_eq!(topic_stats(rows(), &criteria(None, None, Some(3))).len(), 3);
    assert_eq!(topic_stats(rows(), &criteria(None, None, Some(9))).len(), 3);
    assert_eq!(topic_stats(rows(), &criteria(None, None, Some(-1))).len(), 3);
}

#[test]
fn patterns_decide_which_rows_count() {
    let stats = topic_stats(rows(), &criteria(Some("^[ab]$"), None, None));
    assert_eq!(names(&stats), vec!["b", "a"]);
    let stats = topic_stats(rows(), &criteria(None, Some("[12]$"), None));
    assert_eq!(names(&stats), vec!["a", "c", "b"]);
    assert_eq!(stats[2].message_count, 2);
    assert_eq!(stats[2].latest_payload, Some("b2".to_string()));
    let stats = topic_stats(rows(), &criteria(Some("b"), Some("1"), None));
    assert_eq!(names(&stats), vec!["b"]);
    assert_eq!(stats[0].message_count, 1);
    let stats = topic_stats(rows(), &criteria(Some("("), Some("["), None));
    assert_eq!(stats.len(), 3);
    assert_eq!(stats[0].message_count, 3);
}

#[test]
fn many_topics_in_turn_are_each_summed_up_once() {
    let mut all = Vec::new();
    for round in 0..40i64 {
        for topic in 0..25i64 {
            let name = format!("plant/{}/line/{}", topic % 5, topic);
            all.push(row(&name, &format!("{}:{}", topic, round), 1000 * round + topic));
        }
    }
    let stats = group_by_topic(&all);
    assert_eq!(stats.len(), 25);
    for (place, stat) in stats.iter().enumerate() {
        let topic = place as i64;
        assert_eq!(stat.topic, format!("plant/{}/line/{}", topic % 5, topic));
        assert_eq!(stat.message_count, 40);
        assert_eq!(stat.first_message_time, Timestamp { secs: topic, nanos: 0 });
        assert_eq!(stat.last_message_time, Timestamp { secs: 39000 + topic, nanos: 0 });
        assert_eq!(stat.latest_payload, Some(format!("{}:39", topic)));
    }
    let sorted = topic_stats(all, &criteria(None, None, Some(3)));
    assert_eq!(
        names(&sorted),
        vec!["plant/4/line/24", "plant/3/line/23", "plant/2/line/22"]
    );
}
