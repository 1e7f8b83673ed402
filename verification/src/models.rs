//! The records that travel between the store and the screens.

use crate::datetime::{utc_now, Timestamp};
use vstd::prelude::*;

verus! {

/// One stored publication.
#[derive(Debug)]
pub struct Message {
    /// Assigned by the store on insert.
    pub id: Option<i64>,
    pub topic: String,
    pub payload: String,
    pub timestamp: Timestamp,
    /// Quality of service, 0 to 2.
    pub qos: i32,
    pub retain: bool,
    pub created_at: Option<Timestamp>,
}

/// What the store knows of one topic.
#[derive(Debug)]
pub struct TopicStat {
    pub topic: String,
    pub message_count: i64,
    pub last_message_time: Timestamp,
    pub first_message_time: Timestamp,
    pub latest_payload: Option<String>,
}

/// A query to the store. The time bounds are inclusive.
#[derive(Debug)]
pub struct FilterCriteria {
    pub topic_regex: Option<String>,
    pub payload_regex: Option<String>,
    pub start_time: Option<Timestamp>,
    pub end_time: Option<Timestamp>,
    pub limit: Option<i64>,
    pub offset: Option<i64>,
}

/// A message as a value: its texts are sequences of characters.
pub struct MessageView {
    pub id: Option<i64>,
    pub topic: Seq<char>,
    pub payload: Seq<char>,
    pub timestamp: Timestamp,
    pub qos: i32,
    pub retain: bool,
    pub created_at: Option<Timestamp>,
}

/// A topic record as a value.
pub struct TopicStatView {
    pub topic: Seq<char>,
    pub message_count: i64,
    pub last_message_time: Timestamp,
    pub first_message_time: Timestamp,
    pub latest_payload: Option<Seq<char>>,
}

impl View for Message {
    type V = MessageView;

    open spec fn view(&self) -> MessageView {
        MessageView {
            id: self.id,
            topic: self.topic@,
            payload: self.payload@,
            timestamp: self.timestamp,
            qos: self.qos,
            retain: self.retain,
            created_at: self.created_at,
        }
    }
}

impl View for TopicStat {
    type V = TopicStatView;

    open spec fn view(&self) -> TopicStatView {
        TopicStatView {
            topic: self.topic@,
            message_count: self.message_count,
            last_message_time: self.last_message_time,
            first_message_time: self.first_message_time,
            latest_payload: crate::text::text_view(self.latest_payload),
        }
    }
}

impl MessageView {
    /// The text that keyword rules are matched against: topic, one blank,
    /// payload.
    pub open spec fn content(self) -> Seq<char> {
        self.topic + seq![' '] + self.payload
    }
}

impl TopicStatView {
    /// What a row of the topic list shows of a record: everything but the
    /// time of the first message.
    pub open spec fn shown(self) -> (Seq<char>, i64, Timestamp, Option<Seq<char>>) {
        (self.topic, self.message_count, self.last_message_time, self.latest_payload)
    }
}

/// A count as the store takes it: cut off at the largest `i64`.
pub open spec fn store_count(n: int) -> i64 {
    if n > i64::MAX {
        i64::MAX
    } else {
        n as i64
    }
}

/// Copies an optional text.
pub fn clone_text(text: &Option<String>) -> (out: Option<String>)
    ensures
        out == *text,
{
    match text {
        Some(s) => Some(s.clone()),
        None => None,
    }
}

impl Message {
    /// A message that has not been stored yet, stamped with the given
    /// instant.
    pub fn stamped(topic: String, payload: String, qos: i32, retain: bool, now: Timestamp) -> (m:
        Message)
        ensures
            m == (Message {
                id: None,
                topic,
                payload,
                timestamp: now,
                qos,
                retain,
                created_at: Some(now),
            }),
    {
        Message { id: None, topic, payload, timestamp: now, qos, retain, created_at: Some(now) }
    }

    /// A message that has not been stored yet, stamped with the present
    /// instant.
    pub fn new(topic: String, payload: String, qos: i32, retain: bool) -> (m: Message)
        ensures
            m.id is None,
            m.topic == topic,
            m.payload == payload,
            m.qos == qos,
            m.retain == retain,
            m.created_at == Some(m.timestamp),
    {
        Message::stamped(topic, payload, qos, retain, utc_now())
    }
}

impl Clone for Message {
    fn clone(&self) -> (out: Self)
        ensures
            out == *self,
    {
        Message {
            id: self.id,
            topic: self.topic.clone(),
            payload: self.payload.clone(),
            timestamp: self.timestamp,
            qos: self.qos,
            retain: self.retain,
            created_at: self.created_at,
        }
    }
}

impl Clone for TopicStat {
    fn clone(&self) -> (out: Self)
        ensures
            out == *self,
    {
        TopicStat {
            topic: self.topic.clone(),
            message_count: self.message_count,
            last_message_time: self.last_message_time,
            first_message_time: self.first_message_time,
            latest_payload: clone_text(&self.latest_payload),
        }
    }
}

impl Clone for FilterCriteria {
    fn clone(&self) -> (out: Self)
        ensures
            out == *self,
    {
        FilterCriteria {
            topic_regex: clone_text(&self.topic_regex),
            payload_regex: clone_text(&self.payload_regex),
            start_time: self.start_time,
            end_time: self.end_time,
            limit: self.limit,
            offset: self.offset,
        }
    }
}

impl Default for FilterCriteria {
    /// No pattern, no time bound, the first thousand rows.
    fn default() -> (out: Self)
        ensures
            out == (FilterCriteria {
                topic_regex: None,
                payload_regex: None,
                start_time: None,
                end_time: None,
                limit: Some(1000),
                offset: Some(0),
            }),
    {
        FilterCriteria {
            topic_regex: None,
            payload_regex: None,
            start_time: None,
            end_time: None,
            limit: Some(1000),
            offset: Some(0),
        }
    }
}

/// Copies a list of messages.
pub fn clone_messages(rows: &Vec<Message>) -> (out: Vec<Message>)
    ensures
        out@ == rows@,
{
    let mut out: Vec<Message> = Vec::new();
    let mut i: usize = 0;
    while i < rows.len()
        invariant
            i <= rows.len(),
            out@ == rows@.subrange(0, i as int),
        decreases rows.len() - i,
    {
        out.push(rows[i].clone());
        assert(out@ =~= rows@.subrange(0, i + 1));
        i = i + 1;
    }
    assert(rows@.subrange(0, rows.len() as int) =~= rows@);
    out
}

/// Copies a list of topic records.
pub fn clone_topics(rows: &Vec<TopicStat>) -> (out: Vec<TopicStat>)
    ensures
        out@ == rows@,
{
    let mut out: Vec<TopicStat> = Vec::new();
    let mut i: usize = 0;
    while i < rows.len()
        invariant
            i <= rows.len(),
            out@ == rows@.subrange(0, i as int),
        decreases rows.len() - i,
    {
        out.push(rows[i].clone());
        assert(out@ =~= rows@.subrange(0, i + 1));
        i = i + 1;
    }
    assert(rows@.subrange(0, rows.len() as int) =~= rows@);
    out
}

} // verus!
