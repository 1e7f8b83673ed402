use mqtt_log_viewer::datetime::Timestamp;
use mqtt_log_viewer::mqtt::{
    connection_after, process_event, BrokerAction, BrokerEvent, MessageBatch, MqttMessage,
};

fn publication(n: i32) -> MqttMessage {
    MqttMessage { topic: format!("t/{}", n), payload: format!("body {}", n), qos: n % 3, retain: n % 2 == 0 }
}

#[test]
fn the_connection_follows_the_broker() {
    assert!(connection_after(false, &BrokerEvent::ConnectionAnswered { accepted: true }));
    assert!(!connection_after(false, &BrokerEvent::ConnectionAnswered { accepted: false }));
    assert!(connection_after(true, &BrokerEvent::ConnectionAnswered { accepted: false }));
    assert!(!connection_after(true, &BrokerEvent::Disconnected));
    assert!(connection_after(true, &BrokerEvent::Other));
    assert!(!connection_after(false, &BrokerEvent::Other));
    assert!(connection_after(true, &BrokerEvent::Published(publication(1))));
}

#[test]
fn an_accepted_connection_asks_for_the_subscription() {
    assert!(matches!(
        process_event(BrokerEvent::ConnectionAnswered { accepted: true }),
        BrokerAction::Subscribe
    ));
    assert!(matches!(
        process_event(BrokerEvent::ConnectionAnswered { accepted: false }),
        BrokerAction::Nothing
    ));
    assert!(matches!(process_event(BrokerEvent::Disconnected), BrokerAction::Nothing));
    assert!(matches!(process_event(BrokerEvent::Other), BrokerAction::Nothing));
    match process_event(BrokerEvent::Published(publication(4))) {
        BrokerAction::Forward(m) => {
            assert_eq!(m.topic, "t/4");
            assert_eq!(m.payload, "body 4");
            assert_eq!(m.qos, 1);
            assert!(m.retain);
        }
        other => panic!("unexpected action {:?}", other),
    }
}

#[test]
fn a_batch_is_stored_when_it_is_full() {
    let mut batch = MessageBatch::new(3);
    let at = Timestamp { secs: 7, nanos: 8 };
    assert!(batch.add_at(publication(1), at).is_none());
    assert!(batch.add_at(publication(2), at).is_none());
    let ready = batch.add_at(publication(3), at).unwrap();
    let topics: Vec<&str> = ready.iter().map(|m| m.topic.as_str()).collect();
    assert_eq!(topics, vec!["t/1", "t/2", "t/3"]);
    assert!(ready.iter().all(|m| m.timestamp == at && m.created_at == Some(at) && m.id.is_none()));
    assert_eq!(ready[1].qos, 2);
    assert!(batch.waiting.is_empty());
    assert!(batch.add(publication(4)).is_none());
    assert_eq!(batch.waiting.len(), 1);
}

#[test]
fn a_tick_stores_what_waits() {
    let mut batch = MessageBatch::new(100);
    assert!(batch.take().is_none());
    batch.add(publication(1));
    batch.add(publication(2));
    let ready = batch.take().unwrap();
    assert_eq!(ready.len(), 2);
    assert_eq!(ready[0].payload, "body 1");
    assert!(batch.take().is_none());
    assert_eq!(batch.size, 100);
}

#[test]
fn a_batch_of_size_zero_or_one_stores_every_message_at_once() {
    for size in [0, 1] {
        let mut batch = MessageBatch::new(size);
        assert_eq!(batch.add(publication(1)).unwrap().len(), 1);
        assert_eq!(batch.add(publication(2)).unwrap().len(), 1);
        assert!(batch.take().is_none());
    }
}
