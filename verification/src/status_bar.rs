//! The two status rows at the bottom of the screen.

use crate::datetime::Timestamp;
use crate::text::{decimal, decimal_text};
use vstd::prelude::*;
use vstd::string::*;

verus! {

/// What is known of the link to the broker.
#[derive(Debug)]
pub enum ConnectionStatus {
    Disconnected,
    Connecting,
    /// Connected, with the address of the broker.
    Connected(String),
    Error(String),
}

/// The screen that the status rows belong to.
#[derive(Debug)]
pub enum ViewType {
    TopicList,
    /// The messages of a topic.
    MessageList(String),
    /// One message, by topic and time.
    PayloadDetail(String, Timestamp),
}

/// The state of the status rows.
#[derive(Debug)]
pub struct StatusBarState {
    pub connection_status: ConnectionStatus,
    pub total_topics: usize,
    pub total_messages: i64,
    pub last_update: Option<Timestamp>,
    pub current_view: ViewType,
    pub help_text: String,
    /// Name, colour and switch of each quick filter.
    pub quick_filter_states: Vec<(String, String, bool)>,
}

/// The status rows themselves; drawing them is left to the caller.
pub struct StatusBar;

/// The keys that the topic list offers.
pub open spec fn topic_list_help() -> Seq<char> {
    "[/]filter [Enter]select [↑↓]navigate [Home/End]first/last [←]back [F5]refresh [F1]help"@
}

/// The keys that the message list offers.
pub open spec fn message_list_help() -> Seq<char> {
    "[←]back [/]filter [Enter]view [↑↓]navigate [Home/End]first/last [F2]json [F1]help"@
}

/// The keys that the payload view offers.
pub open spec fn payload_detail_help() -> Seq<char> {
    "[←]back [F2]json-depth [c]opy [↑↓]scroll [PgUp/PgDn]page [F1]help"@
}

/// The keys shown before any screen was entered.
pub open spec fn initial_help() -> Seq<char> {
    "[/]filter [Enter]select [↑↓]navigate [F5]refresh [F1]help"@
}

/// The help text of a screen.
pub open spec fn help_for(view: ViewType) -> Seq<char> {
    match view {
        ViewType::TopicList => topic_list_help(),
        ViewType::MessageList(topic) => message_list_help(),
        ViewType::PayloadDetail(topic, at) => payload_detail_help(),
    }
}

/// Two connection states draw the same. An error never draws the same as
/// anything, not even as itself, so that it is always drawn again.
pub open spec fn same_connection(a: ConnectionStatus, b: ConnectionStatus) -> bool {
    match (a, b) {
        (ConnectionStatus::Disconnected, ConnectionStatus::Disconnected) => true,
        (ConnectionStatus::Connecting, ConnectionStatus::Connecting) => true,
        (ConnectionStatus::Connected(x), ConnectionStatus::Connected(y)) => x@ == y@,
        _ => false,
    }
}

/// The quick-filter marks by what they show.
pub open spec fn marks_view(marks: Seq<(String, String, bool)>) -> Seq<(Seq<char>, Seq<char>, bool)> {
    marks.map_values(|m: (String, String, bool)| (m.0@, m.1@, m.2))
}

/// The first of the two rows shows the same in both frames: connection,
/// counts and time of the last update.
pub open spec fn same_status_line(a: StatusBarState, b: StatusBarState) -> bool {
    &&& same_connection(a.connection_status, b.connection_status)
    &&& a.total_topics == b.total_topics
    &&& a.total_messages == b.total_messages
    &&& a.last_update == b.last_update
}

/// The second of the two rows shows the same in both frames: help text and
/// quick-filter marks.
pub open spec fn same_help_line(a: StatusBarState, b: StatusBarState) -> bool {
    &&& a.help_text@ == b.help_text@
    &&& marks_view(a.quick_filter_states@) == marks_view(b.quick_filter_states@)
}

/// Both rows show the same in both frames. The screen they belong to is not
/// compared.
pub open spec fn same_status(a: StatusBarState, b: StatusBarState) -> bool {
    same_status_line(a, b) && same_help_line(a, b)
}

/// The mark of one quick filter: `[F`, the number of its key, a colon, its
/// name, a blank, a tick or a cross, `]`.
pub open spec fn mark_text(index: nat, name: Seq<char>, enabled: bool) -> Seq<char> {
    seq!['[', 'F'] + decimal(index + 1) + seq![':'] + name + seq![' '] + (if enabled {
        seq!['✓']
    } else {
        seq!['✗']
    }) + seq![']']
}

/// Tells whether two connection states draw the same.
pub fn connection_unchanged(a: &ConnectionStatus, b: &ConnectionStatus) -> (same: bool)
    ensures
        same == same_connection(*a, *b),
{
    match (a, b) {
        (ConnectionStatus::Disconnected, ConnectionStatus::Disconnected) => true,
        (ConnectionStatus::Connecting, ConnectionStatus::Connecting) => true,
        (ConnectionStatus::Connected(x), ConnectionStatus::Connected(y)) => *x == *y,
        _ => false,
    }
}

/// Tells whether two lists of quick-filter marks show the same.
pub fn marks_unchanged(a: &Vec<(String, String, bool)>, b: &Vec<(String, String, bool)>) -> (same:
    bool)
    ensures
        same == (marks_view(a@) == marks_view(b@)),
{
    if a.len() != b.len() {
        assert(marks_view(a@).len() != marks_view(b@).len());
        return false;
    }
    let mut i: usize = 0;
    while i < a.len()
        invariant
            i <= a.len(),
            a.len() == b.len(),
            forall|j: int| 0 <= j < i ==> marks_view(a@)[j] == marks_view(b@)[j],
        decreases a.len() - i,
    {
        let same: bool = a[i].0 == b[i].0 && a[i].1 == b[i].1 && a[i].2 == b[i].2;
        if !same {
            assert(marks_view(a@)[i as int] != marks_view(b@)[i as int]);
            return false;
        }
        i = i + 1;
    }
    assert(marks_view(a@) =~= marks_view(b@));
    true
}

/// Tells whether both rows show the same in both frames.
pub fn states_equal_status(prev: &StatusBarState, current: &StatusBarState) -> (same: bool)
    ensures
        same == same_status(*prev, *current),
{
    connection_unchanged(&prev.connection_status, &current.connection_status) && prev.total_topics
        == current.total_topics && prev.total_messages == current.total_messages
        && prev.last_update == current.last_update && prev.help_text == current.help_text
        && marks_unchanged(&prev.quick_filter_states, &current.quick_filter_states)
}

/// Copies a connection state.
pub fn clone_connection(status: &ConnectionStatus) -> (copy: ConnectionStatus)
    ensures
        copy == *status,
{
    match status {
        ConnectionStatus::Disconnected => ConnectionStatus::Disconnected,
        ConnectionStatus::Connecting => ConnectionStatus::Connecting,
        ConnectionStatus::Connected(address) => ConnectionStatus::Connected(address.clone()),
        ConnectionStatus::Error(reason) => ConnectionStatus::Error(reason.clone()),
    }
}

/// Copies a screen tag.
pub fn clone_view(view: &ViewType) -> (copy: ViewType)
    ensures
        copy == *view,
{
    match view {
        ViewType::TopicList => ViewType::TopicList,
        ViewType::MessageList(topic) => ViewType::MessageList(topic.clone()),
        ViewType::PayloadDetail(topic, at) => ViewType::PayloadDetail(topic.clone(), *at),
    }
}

impl StatusBarState {
    /// A copy for the comparison with the next frame.
    pub fn snapshot(&self) -> (copy: StatusBarState)
        ensures
            copy.quick_filter_states@ == self.quick_filter_states@,
            copy == (StatusBarState { quick_filter_states: copy.quick_filter_states, ..*self }),
    {
        let mut marks: Vec<(String, String, bool)> = Vec::new();
        let mut i: usize = 0;
        while i < self.quick_filter_states.len()
            invariant
                i <= self.quick_filter_states.len(),
                marks@ == self.quick_filter_states@.take(i as int),
            decreases self.quick_filter_states.len() - i,
        {
            let mark: (String, String, bool) = (
                self.quick_filter_states[i].0.clone(),
                self.quick_filter_states[i].1.clone(),
                self.quick_filter_states[i].2,
            );
            marks.push(mark);
            assert(marks@ =~= self.quick_filter_states@.take(i + 1));
            i = i + 1;
        }
        assert(self.quick_filter_states@.take(i as int) =~= self.quick_filter_states@);
        StatusBarState {
            connection_status: clone_connection(&self.connection_status),
            total_topics: self.total_topics,
            total_messages: self.total_messages,
            last_update: self.last_update,
            current_view: clone_view(&self.current_view),
            help_text: self.help_text.clone(),
            quick_filter_states: marks,
        }
    }
}

impl Default for StatusBarState {
    /// Disconnected, nothing counted, on the topic list.
    fn default() -> (bar: Self)
        ensures
            bar.connection_status is Disconnected,
            bar.total_topics == 0,
            bar.total_messages == 0,
            bar.last_update is None,
            bar.current_view is TopicList,
            bar.help_text@ == initial_help(),
            bar.quick_filter_states@.len() == 0,
    {
        StatusBarState {
            connection_status: ConnectionStatus::Disconnected,
            total_topics: 0,
            total_messages: 0,
            last_update: None,
            current_view: ViewType::TopicList,
            help_text: String::from_str(
                "[/]filter [Enter]select [↑↓]navigate [F5]refresh [F1]help",
            ),
            quick_filter_states: Vec::new(),
        }
    }
}

impl StatusBar {
    /// Makes `view` the screen of the status rows and shows its keys.
    pub fn set_help_text_for_view(state: &mut StatusBarState, view: &ViewType)
        ensures
            final(state).help_text@ == help_for(*view),
            *final(state) == (StatusBarState {
                current_view: *view,
                help_text: final(state).help_text,
                ..*old(state)
            }),
    {
        state.current_view = clone_view(view);
        state.help_text = match view {
            ViewType::TopicList => String::from_str(
                "[/]filter [Enter]select [↑↓]navigate [Home/End]first/last [←]back [F5]refresh [F1]help",
            ),
            ViewType::MessageList(topic) => String::from_str(
                "[←]back [/]filter [Enter]view [↑↓]navigate [Home/End]first/last [F2]json [F1]help",
            ),
            ViewType::PayloadDetail(topic, at) => String::from_str(
                "[←]back [F2]json-depth [c]opy [↑↓]scroll [PgUp/PgDn]page [F1]help",
            ),
        };
    }

    /// Tells whether the first row has to be drawn again: always without an
    /// earlier frame.
    pub fn status_line_changed(state: &StatusBarState, previous: Option<&StatusBarState>) -> (changed:
        bool)
        ensures
            changed == match previous {
                None => true,
                Some(p) => !same_status_line(*p, *state),
            },
    {
        match previous {
            None => true,
            Some(p) => !(connection_unchanged(&p.connection_status, &state.connection_status)
                && p.total_topics == state.total_topics && p.total_messages
                == state.total_messages && p.last_update == state.last_update),
        }
    }

    /// Tells whether the second row has to be drawn again: always without
    /// an earlier frame.
    pub fn help_line_changed(state: &StatusBarState, previous: Option<&StatusBarState>) -> (changed:
        bool)
        ensures
            changed == match previous {
                None => true,
                Some(p) => !same_help_line(*p, *state),
            },
    {
        match previous {
            None => true,
            Some(p) => !(p.help_text == state.help_text && marks_unchanged(
                &p.quick_filter_states,
                &state.quick_filter_states,
            )),
        }
    }

    /// The mark of the quick filter in slot `index`.
    pub fn mark(index: usize, name: &str, enabled: bool) -> (text: String)
        requires
            index < usize::MAX,
        ensures
            text@ == mark_text(index as nat, name@, enabled),
    {
        proof {
            reveal_strlit("[F");
            reveal_strlit(":");
            reveal_strlit(" ");
            reveal_strlit("✓");
            reveal_strlit("✗");
            reveal_strlit("]");
        }
        let mut text: String = String::from_str("[F");
        let number: String = decimal_text((index + 1) as u64);
        text.append(number.as_str());
        text.append(":");
        text.append(name);
        text.append(" ");
        if enabled {
            text.append("✓");
        } else {
            text.append("✗");
        }
        text.append("]");
        assert(text@ =~= mark_text(index as nat, name@, enabled));
        text
    }
}

/// While the connection is in error, the first row never counts as
/// unchanged: an error is drawn on every frame.
pub proof fn lemma_error_is_always_redrawn(a: StatusBarState, b: StatusBarState)
    requires
        a.connection_status is Error || b.connection_status is Error,
    ensures
        !same_status_line(a, b),
        !same_status(a, b),
{
}

/// Frames that differ only in the screen they belong to show the same.
pub proof fn lemma_view_is_not_compared(a: StatusBarState, view: ViewType)
    requires
        !(a.connection_status is Error),
    ensures
        same_status(a, StatusBarState { current_view: view, ..a }),
{
}

} // verus!
