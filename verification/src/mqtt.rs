//! What the viewer does with what the broker sends: which events change the
//! connection state, which ask for the subscription, and how messages are
//! gathered into batches for the store.

use crate::datetime::{utc_now, Timestamp};
use crate::models::Message;
use vstd::prelude::*;

verus! {

/// A publication as the broker delivers it.
#[derive(Debug)]
pub struct MqttMessage {
    pub topic: String,
    pub payload: String,
    pub qos: i32,
    pub retain: bool,
}

/// A change of the link to the broker.
#[derive(Debug)]
pub enum ConnectionEvent {
    Connected,
    Disconnected,
    Error(String),
}

/// What the event loop of the broker client reports, as far as the viewer
/// reacts to it.
#[derive(Debug)]
pub enum BrokerEvent {
    /// The broker answered the connection request, accepting it or not.
    ConnectionAnswered { accepted: bool },
    /// The broker closed the connection.
    Disconnected,
    /// A publication came in.
    Published(MqttMessage),
    /// Anything else.
    Other,
}

/// What the viewer does about an event of the broker.
#[derive(Debug)]
pub enum BrokerAction {
    /// Subscribe to every topic.
    Subscribe,
    /// Hand the publication to the store.
    Forward(MqttMessage),
    Nothing,
}

/// Messages that wait to be stored together.
#[derive(Debug)]
pub struct MessageBatch {
    pub waiting: Vec<Message>,
    /// Number of messages at which the batch is stored at once.
    pub size: usize,
}

/// Whether the broker is connected after an event: an accepted connection
/// connects, a disconnection disconnects, and nothing else changes the
/// state.
pub open spec fn connected_after(connected: bool, event: BrokerEvent) -> bool {
    match event {
        BrokerEvent::ConnectionAnswered { accepted } => if accepted {
            true
        } else {
            connected
        },
        BrokerEvent::Disconnected => false,
        _ => connected,
    }
}

/// The reaction that an event asks for.
pub open spec fn reaction(event: BrokerEvent) -> BrokerAction {
    match event {
        BrokerEvent::ConnectionAnswered { accepted } => if accepted {
            BrokerAction::Subscribe
        } else {
            BrokerAction::Nothing
        },
        BrokerEvent::Published(message) => BrokerAction::Forward(message),
        _ => BrokerAction::Nothing,
    }
}

/// The message that is stored for a publication that came in at `now`.
pub open spec fn stored_form(message: MqttMessage, now: Timestamp) -> Message {
    Message {
        id: None,
        topic: message.topic,
        payload: message.payload,
        timestamp: now,
        qos: message.qos,
        retain: message.retain,
        created_at: Some(now),
    }
}

/// Tells whether the broker is connected after an event.
pub fn connection_after(connected: bool, event: &BrokerEvent) -> (now: bool)
    ensures
        now == connected_after(connected, *event),
{
    match event {
        BrokerEvent::ConnectionAnswered { accepted } => if *accepted {
            true
        } else {
            connected
        },
        BrokerEvent::Disconnected => false,
        _ => connected,
    }
}

/// The reaction that an event asks for.
pub fn process_event(event: BrokerEvent) -> (action: BrokerAction)
    ensures
        action == reaction(event),
{
    match event {
        BrokerEvent::ConnectionAnswered { accepted } => if accepted {
            BrokerAction::Subscribe
        } else {
            BrokerAction::Nothing
        },
        BrokerEvent::Published(message) => BrokerAction::Forward(message),
        _ => BrokerAction::Nothing,
    }
}

impl MessageBatch {
    /// An empty batch that is stored whenever it holds `size` messages.
    pub fn new(size: usize) -> (batch: MessageBatch)
        ensures
            batch.waiting@.len() == 0,
            batch.size == size,
    {
        MessageBatch { waiting: Vec::new(), size }
    }

    /// Takes in a publication that came in at `now`. Returns the messages to
    /// store when the batch is full with it, and then starts anew.
    pub fn add_at(&mut self, message: MqttMessage, now: Timestamp) -> (ready: Option<
        Vec<Message>,
    >)
        ensures
            final(self).size == old(self).size,
            old(self).waiting@.len() + 1 >= old(self).size ==> ready is Some && ready->0@ == old(self).waiting@.push(stored_form(message, now)) && final(self).waiting@.len() == 0,
            old(self).waiting@.len() + 1 < old(self).size ==> ready is None && final(self).waiting@ == old(self).waiting@.push(stored_form(message, now)),
    {
        let row: Message = Message::stamped(
            message.topic,
            message.payload,
            message.qos,
            message.retain,
            now,
        );
        self.waiting.push(row);
        if self.waiting.len() >= self.size {
            self.take()
        } else {
            None
        }
    }

    /// Takes in a publication that comes in now.
    pub fn add(&mut self, message: MqttMessage) -> (ready: Option<Vec<Message>>)
        ensures
            final(self).size == old(self).size,
            old(self).waiting@.len() + 1 >= old(self).size ==> ready is Some && ready->0@.len()
                == old(self).waiting@.len() + 1 && final(self).waiting@.len() == 0,
            old(self).waiting@.len() + 1 < old(self).size ==> ready is None && final(self).waiting@.len() == old(self).waiting@.len() + 1,
            forall|i: int|
                0 <= i < old(self).waiting@.len() ==> (match ready {
                    Some(rows) => rows@[i],
                    None => final(self).waiting@[i],
                }) == old(self).waiting@[i],
    {
        self.add_at(message, utc_now())
    }

    /// The messages that wait, to be stored now; nothing if none waits.
    /// The batch starts anew.
    pub fn take(&mut self) -> (ready: Option<Vec<Message>>)
        ensures
            final(self).size == old(self).size,
            final(self).waiting@.len() == 0,
            old(self).waiting@.len() == 0 ==> ready is None,
            old(self).waiting@.len() > 0 ==> ready is Some && ready->0@ == old(self).waiting@,
    {
        if self.waiting.len() == 0 {
            return None;
        }
        let mut rows: Vec<Message> = Vec::new();
        core::mem::swap(&mut rows, &mut self.waiting);
        Some(rows)
    }
}

/// Whatever the state was, the broker is connected after an accepted
/// connection and disconnected after a disconnection.
pub proof fn lemma_connection_follows_the_broker(connected: bool)
    ensures
        connected_after(connected, BrokerEvent::ConnectionAnswered { accepted: true }),
        !connected_after(connected, BrokerEvent::Disconnected),
        connected_after(connected, BrokerEvent::ConnectionAnswered { accepted: false })
            == connected,
        connected_after(connected, BrokerEvent::Other) == connected,
{
}

} // verus!
