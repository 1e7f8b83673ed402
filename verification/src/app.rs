//! The viewer as a whole: which screen is shown, the states of the screens,
//! and the frames that the next drawing is compared with.

use crate::config::{Config, QUICK_FILTER_SLOTS};
use crate::events::KeyCode;
use crate::filter_bar::{shows_same, states_equal_filter, FilterState};
use crate::message_list::{AfterLoad, Fallback, LoadReply, LoadRequest, MessageListState};
use crate::models::{FilterCriteria, Message, TopicStat};
use crate::list_keys::DeleteTarget;
use crate::status_bar::{
    same_status, states_equal_status, topic_list_help, ConnectionStatus, StatusBar,
    StatusBarState, ViewType,
};
use crate::text::{decimal, decimal_text};
use crate::topic_list::TopicListState;
use vstd::prelude::*;
use vstd::string::*;

verus! {

/// The screen that is shown.
#[derive(Clone, Copy, Debug, PartialEq, Eq, Structural)]
pub enum AppState {
    TopicList,
    MessageList,
    PayloadDetail,
    Help,
    Quit,
}

/// The part of a message that Copy takes in the payload view.
#[derive(Clone, Copy, Debug, PartialEq, Eq, Structural)]
pub enum PayloadDetailSelection {
    Topic,
    Payload,
    FormattedJson,
}

/// A key that is held down, with times in milliseconds.
#[derive(Clone, Copy, Debug, PartialEq, Eq, Structural)]
pub struct KeyRepeatState {
    pub current_key: Option<KeyCode>,
    pub key_pressed_at: Option<u64>,
    pub last_repeat_at: Option<u64>,
    pub is_repeating: bool,
}

/// What the viewer waits for from its caller.
#[derive(Clone, Copy, Debug, PartialEq, Eq, Structural)]
pub enum Pending {
    /// Nothing.
    Idle,
    /// The rows of a load of the message list, with what is to follow and
    /// where a failed load returns to.
    Messages(AfterLoad, Fallback),
    /// The rows of the topic that is being entered.
    EnterTopic,
    /// The topics of the store.
    Topics,
    /// Whether a message was deleted.
    MessageDelete,
    /// How many messages of a topic were deleted.
    TopicDelete,
    /// The text of the clipboard.
    Paste,
}

/// What the caller has to do before the viewer can go on.
#[derive(Debug)]
pub enum Effect {
    /// Nothing; the event has been dealt with.
    Nothing,
    /// Leave the program.
    Quit,
    /// Run the two queries and answer with [`Reply::Messages`].
    LoadMessages(LoadRequest),
    /// Ask the store for its topics and answer with [`Reply::Topics`].
    LoadTopics(FilterCriteria),
    /// Delete one message and answer with [`Reply::MessageDeleted`].
    DeleteMessage(DeleteTarget),
    /// Delete every message of a topic and answer with
    /// [`Reply::TopicDeleted`].
    DeleteTopic(String),
    /// Put the text on the clipboard; no answer is expected.
    CopyText(String),
    /// Read the clipboard and answer with [`Reply::Clipboard`].
    ReadClipboard,
}

/// The answer of the caller to an [`Effect`].
#[derive(Debug)]
pub enum Reply {
    Messages(LoadReply),
    /// The topics, or nothing if the store failed.
    Topics(Option<Vec<TopicStat>>),
    /// Whether a message was deleted, or nothing if the store failed.
    MessageDeleted(Option<bool>),
    /// How many messages were deleted, or nothing if the store failed.
    TopicDeleted(Option<u64>),
    /// The text of the clipboard, or nothing if it could not be read.
    Clipboard(Option<String>),
}

/// The regions of the topic screen that are to be drawn again.
#[derive(Clone, Copy, Debug, PartialEq, Eq, Structural)]
pub struct Repaint {
    pub filter_bar: bool,
    pub topic_list: bool,
    pub status_line: bool,
    pub help_line: bool,
}

/// The viewer.
#[derive(Debug)]
pub struct App {
    pub state: AppState,
    pub config: Config,
    pub filter_state: FilterState,
    pub status_bar_state: StatusBarState,
    pub topic_list_state: TopicListState,
    pub message_list_state: MessageListState,
    pub payload_detail_scroll_offset: usize,
    pub payload_detail_selection: PayloadDetailSelection,
    pub mqtt_host: String,
    pub mqtt_port: u16,
    /// The filter bar as it was last drawn.
    pub prev_filter_state: Option<FilterState>,
    /// The status rows as they were last drawn.
    pub prev_status_bar_state: Option<StatusBarState>,
    /// The topic list as it was last drawn.
    pub prev_topic_list_state: Option<TopicListState>,
    /// Time between two periodic refreshes, in milliseconds.
    pub refresh_interval_ms: u64,
    pub terminal_width: u16,
    pub terminal_height: u16,
    pub needs_full_redraw: bool,
    pub key_repeat_state: KeyRepeatState,
    pub pending: Pending,
}

/// Rows of the topic list on a terminal of the given height: what is left
/// under the five rows of the filter bar and the two header rows, above the
/// two status rows and the border.
pub open spec fn topic_rows_for_height(terminal_height: int) -> int {
    if terminal_height >= 10 {
        terminal_height - 10
    } else {
        0
    }
}

/// Rows of the payload view on a terminal of the given height: what is left
/// under the four header rows, above the two status rows and the border.
pub open spec fn detail_rows_for_height(terminal_height: int) -> int {
    if terminal_height >= 7 {
        terminal_height - 7
    } else {
        0
    }
}

/// Host, colon, port.
pub open spec fn broker_address(host: Seq<char>, port: u16) -> Seq<char> {
    host + seq![':'] + decimal(port as nat)
}

/// Two frames of the topic list show the same: as many topics, the same
/// selection and window, and for each topic the same name, count, time of
/// the last message and latest payload. The time of the first message is
/// not compared.
pub open spec fn same_topics(a: TopicListState, b: TopicListState) -> bool {
    &&& a.topics@.len() == b.topics@.len()
    &&& a.selected_index == b.selected_index
    &&& a.scroll_offset == b.scroll_offset
    &&& forall|i: int| 0 <= i < a.topics@.len() ==> same_topic_row(a.topics@[i], b.topics@[i])
}

/// Two rows of the topic list show the same.
pub open spec fn same_topic_row(a: TopicStat, b: TopicStat) -> bool {
    a@.shown() == b@.shown()
}

/// The quick-filter marks that a fresh viewer shows: one per rule, for at
/// most as many rules as there are slots, each switched off.
pub open spec fn initial_marks(config: Config, marks: Seq<(String, String, bool)>) -> bool {
    if config.quick_filters.enabled {
        &&& marks.len() == if config.quick_filters.filters@.len() <= QUICK_FILTER_SLOTS {
            config.quick_filters.filters@.len()
        } else {
            QUICK_FILTER_SLOTS as nat
        }
        &&& forall|i: int|
            0 <= i < marks.len() ==> (#[trigger] marks[i]).0@
                == config.quick_filters.filters@[i].name@ && marks[i].1@
                == config.quick_filters.filters@[i].color@ && !marks[i].2
    } else {
        marks.len() == 0
    }
}

/// Tells whether two optional texts are the same text.
pub fn same_text(a: &Option<String>, b: &Option<String>) -> (same: bool)
    ensures
        same == (crate::text::text_view(*a) == crate::text::text_view(*b)),
{
    match (a, b) {
        (Some(x), Some(y)) => *x == *y,
        (None, None) => true,
        _ => false,
    }
}

/// Tells whether two frames of the topic list show the same.
pub fn states_equal_topics(prev: &TopicListState, current: &TopicListState) -> (same: bool)
    ensures
        same == same_topics(*prev, *current),
{
    if prev.topics.len() != current.topics.len() {
        return false;
    }
    if prev.selected_index != current.selected_index {
        return false;
    }
    if prev.scroll_offset != current.scroll_offset {
        return false;
    }
    let mut i: usize = 0;
    while i < prev.topics.len()
        invariant
            i <= prev.topics.len(),
            prev.topics.len() == current.topics.len(),
            forall|j: int| 0 <= j < i ==> same_topic_row(prev.topics@[j], current.topics@[j]),
        decreases prev.topics.len() - i,
    {
        let a: &TopicStat = &prev.topics[i];
        let b: &TopicStat = &current.topics[i];
        let same: bool = a.topic == b.topic && a.message_count == b.message_count
            && a.last_message_time == b.last_message_time && same_text(
            &a.latest_payload,
            &b.latest_payload,
        );
        if !same {
            return false;
        }
        i = i + 1;
    }
    true
}

impl Default for KeyRepeatState {
    /// No key is held.
    fn default() -> (state: Self)
        ensures
            state == (KeyRepeatState {
                current_key: None,
                key_pressed_at: None,
                last_repeat_at: None,
                is_repeating: false,
            }),
    {
        KeyRepeatState {
            current_key: None,
            key_pressed_at: None,
            last_repeat_at: None,
            is_repeating: false,
        }
    }
}

impl App {
    /// The invariants of the viewer: those of the message list, and that
    /// what the viewer waits for never leads back to a page before the
    /// first.
    pub open spec fn wf(self) -> bool {
        &&& self.message_list_state.wf()
        &&& self.pending matches Pending::Messages(then, fallback)
            ==> crate::message_list::rule_is_sound(then, fallback)
    }

    /// A viewer on the topic list, with nothing loaded and nothing drawn.
    pub fn new(config: Config, terminal_width: u16, terminal_height: u16) -> (app: App)
        ensures
            app.state == AppState::TopicList,
            app.config == config,
            app.filter_state.is_fresh(),
            app.message_list_state.is_fresh_with(config.quick_filters.filters@),
            app.wf(),
            app.topic_list_state.topics@.len() == 0,
            app.status_bar_state.help_text@ == topic_list_help(),
            app.status_bar_state.current_view is TopicList,
            app.status_bar_state.connection_status is Disconnected,
            initial_marks(config, app.status_bar_state.quick_filter_states@),
            app.payload_detail_scroll_offset == 0,
            app.payload_detail_selection == PayloadDetailSelection::Payload,
            app.mqtt_host == config.mqtt.host,
            app.mqtt_port == config.mqtt.port,
            app.prev_filter_state is None,
            app.prev_status_bar_state is None,
            app.prev_topic_list_state is None,
            app.refresh_interval_ms == config.ui.refresh_interval_ms,
            app.terminal_width == terminal_width,
            app.terminal_height == terminal_height,
            app.needs_full_redraw,
            app.key_repeat_state == (KeyRepeatState {
                current_key: None,
                key_pressed_at: None,
                last_repeat_at: None,
                is_repeating: false,
            }),
            app.pending == Pending::Idle,
    {
        let mut status: StatusBarState = StatusBarState::default();
        StatusBar::set_help_text_for_view(&mut status, &ViewType::TopicList);
        if config.quick_filters.enabled {
            let mut i: usize = 0;
            while i < config.quick_filters.filters.len() && i < QUICK_FILTER_SLOTS
                invariant
                    i <= config.quick_filters.filters.len(),
                    i <= QUICK_FILTER_SLOTS,
                    status.quick_filter_states@.len() == i,
                    status.help_text@ == topic_list_help(),
                    status.current_view is TopicList,
                    status.connection_status is Disconnected,
                    forall|j: int|
                        0 <= j < i ==> (#[trigger] status.quick_filter_states@[j]).0@
                            == config.quick_filters.filters@[j].name@
                            && status.quick_filter_states@[j].1@
                            == config.quick_filters.filters@[j].color@
                            && !status.quick_filter_states@[j].2,
                decreases config.quick_filters.filters.len() - i,
            {
                let mark: (String, String, bool) = (
                    config.quick_filters.filters[i].name.clone(),
                    config.quick_filters.filters[i].color.clone(),
                    false,
                );
                status.quick_filter_states.push(mark);
                i = i + 1;
            }
        }
        let mut list: MessageListState = MessageListState::new();
        list.set_quick_filter_rules(&config.quick_filters.filters);
        let mqtt_host: String = config.mqtt.host.clone();
        let mqtt_port: u16 = config.mqtt.port;
        let refresh_interval_ms: u64 = config.ui.refresh_interval_ms;
        App {
            state: AppState::TopicList,
            config,
            filter_state: FilterState::default(),
            status_bar_state: status,
            topic_list_state: TopicListState::default(),
            message_list_state: list,
            payload_detail_scroll_offset: 0,
            payload_detail_selection: PayloadDetailSelection::Payload,
            mqtt_host,
            mqtt_port,
            prev_filter_state: None,
            prev_status_bar_state: None,
            prev_topic_list_state: None,
            refresh_interval_ms,
            terminal_width,
            terminal_height,
            needs_full_redraw: true,
            key_repeat_state: KeyRepeatState::default(),
            pending: Pending::Idle,
        }
    }

    /// The screen that is shown.
    pub fn get_state(&self) -> (state: AppState)
        ensures
            state == self.state,
    {
        self.state
    }

    /// The settings.
    pub fn get_config(&self) -> (config: &Config)
        ensures
            *config == self.config,
    {
        &self.config
    }

    /// Width and height of the terminal.
    pub fn get_terminal_size(&self) -> (size: (u16, u16))
        ensures
            size == (self.terminal_width, self.terminal_height),
    {
        (self.terminal_width, self.terminal_height)
    }

    /// Records the width and height of the terminal.
    pub fn set_terminal_size(&mut self, width: u16, height: u16)
        ensures
            *final(self) == (App { terminal_width: width, terminal_height: height, ..*old(self) }),
    {
        self.terminal_width = width;
        self.terminal_height = height;
    }

    /// Tells whether the whole screen is to be drawn again.
    pub fn needs_full_redraw(&self) -> (redraw: bool)
        ensures
            redraw == self.needs_full_redraw,
    {
        self.needs_full_redraw
    }

    /// Records whether the whole screen is to be drawn again.
    pub fn set_needs_full_redraw(&mut self, value: bool)
        ensures
            *final(self) == (App { needs_full_redraw: value, ..*old(self) }),
    {
        self.needs_full_redraw = value;
    }

    /// The filter bar.
    pub fn get_filter_state(&self) -> (bar: &FilterState)
        ensures
            *bar == self.filter_state,
    {
        &self.filter_state
    }

    /// The filter bar as it was last drawn.
    pub fn get_prev_filter_state(&self) -> (bar: Option<&FilterState>)
        ensures
            bar == match self.prev_filter_state {
                Some(p) => Some(&p),
                None => None,
            },
    {
        self.prev_filter_state.as_ref()
    }

    /// The topic list.
    pub fn get_topic_list_state(&self) -> (list: &TopicListState)
        ensures
            *list == self.topic_list_state,
    {
        &self.topic_list_state
    }

    /// The topic list as it was last drawn.
    pub fn get_prev_topic_list_state(&self) -> (list: Option<&TopicListState>)
        ensures
            list == match self.prev_topic_list_state {
                Some(p) => Some(&p),
                None => None,
            },
    {
        self.prev_topic_list_state.as_ref()
    }

    /// The status rows.
    pub fn get_status_bar_state(&self) -> (bar: &StatusBarState)
        ensures
            *bar == self.status_bar_state,
    {
        &self.status_bar_state
    }

    /// The status rows as they were last drawn.
    pub fn get_prev_status_bar_state(&self) -> (bar: Option<&StatusBarState>)
        ensures
            bar == match self.prev_status_bar_state {
                Some(p) => Some(&p),
                None => None,
            },
    {
        self.prev_status_bar_state.as_ref()
    }

    /// Tells whether the filter bar differs from what was last drawn; it
    /// does when nothing was drawn yet.
    pub fn has_filter_state_changed(&self) -> (changed: bool)
        ensures
            changed == match self.prev_filter_state {
                Some(p) => !shows_same(p, self.filter_state),
                None => true,
            },
    {
        match &self.prev_filter_state {
            Some(p) => !states_equal_filter(p, &self.filter_state),
            None => true,
        }
    }

    /// Tells whether the topic list differs from what was last drawn; it
    /// does when nothing was drawn yet.
    pub fn has_topic_list_state_changed(&self) -> (changed: bool)
        ensures
            changed == match self.prev_topic_list_state {
                Some(p) => !same_topics(p, self.topic_list_state),
                None => true,
            },
    {
        match &self.prev_topic_list_state {
            Some(p) => !states_equal_topics(p, &self.topic_list_state),
            None => true,
        }
    }

    /// Tells whether the status rows differ from what was last drawn; they
    /// do when nothing was drawn yet.
    pub fn has_status_bar_state_changed(&self) -> (changed: bool)
        ensures
            changed == match self.prev_status_bar_state {
                Some(p) => !same_status(p, self.status_bar_state),
                None => true,
            },
    {
        match &self.prev_status_bar_state {
            Some(p) => !states_equal_status(p, &self.status_bar_state),
            None => true,
        }
    }

    /// The regions of the topic screen that differ from what was last
    /// drawn; all of them when the whole screen is to be drawn again or
    /// nothing was drawn yet.
    pub open spec fn regions_changed(self) -> Repaint {
        Repaint {
            filter_bar: self.needs_full_redraw || match self.prev_filter_state {
                Some(p) => !shows_same(p, self.filter_state),
                None => true,
            },
            topic_list: self.needs_full_redraw || match self.prev_topic_list_state {
                Some(p) => !same_topics(p, self.topic_list_state),
                None => true,
            },
            status_line: self.needs_full_redraw || match self.prev_status_bar_state {
                Some(p) => !crate::status_bar::same_status_line(p, self.status_bar_state),
                None => true,
            },
            help_line: self.needs_full_redraw || match self.prev_status_bar_state {
                Some(p) => !crate::status_bar::same_help_line(p, self.status_bar_state),
                None => true,
            },
        }
    }

    /// Tells which regions of the topic screen are to be drawn again.
    pub fn repaint(&self) -> (regions: Repaint)
        ensures
            regions == self.regions_changed(),
    {
        let all: bool = self.needs_full_redraw;
        Repaint {
            filter_bar: all || self.has_filter_state_changed(),
            topic_list: all || self.has_topic_list_state_changed(),
            status_line: all || StatusBar::status_line_changed(
                &self.status_bar_state,
                self.prev_status_bar_state.as_ref(),
            ),
            help_line: all || StatusBar::help_line_changed(
                &self.status_bar_state,
                self.prev_status_bar_state.as_ref(),
            ),
        }
    }

    /// Keeps the three frames as the ones that were last drawn.
    pub fn update_prev_states(&mut self)
        ensures
            final(self).prev_filter_state == Some(old(self).filter_state),
            final(self).prev_status_bar_state is Some,
            final(self).prev_status_bar_state->0.quick_filter_states@ == old(self).status_bar_state.quick_filter_states@,
            final(self).prev_status_bar_state->0 == (StatusBarState {
                quick_filter_states: final(self).prev_status_bar_state->0.quick_filter_states,
                ..old(self).status_bar_state
            }),
            final(self).prev_topic_list_state is Some,
            final(self).prev_topic_list_state->0.topics@ == old(self).topic_list_state.topics@,
            final(self).prev_topic_list_state->0 == (TopicListState {
                topics: final(self).prev_topic_list_state->0.topics,
                ..old(self).topic_list_state
            }),
            *final(self) == (App {
                prev_filter_state: final(self).prev_filter_state,
                prev_status_bar_state: final(self).prev_status_bar_state,
                prev_topic_list_state: final(self).prev_topic_list_state,
                ..*old(self)
            }),
    {
        self.prev_filter_state = Some(self.filter_state.snapshot());
        self.prev_status_bar_state = Some(self.status_bar_state.snapshot());
        self.prev_topic_list_state = Some(self.topic_list_state.snapshot());
    }

    /// The selected topic, if there is one.
    pub fn get_selected_topic(&self) -> (row: Option<&TopicStat>)
        ensures
            row == if self.topic_list_state.selected_index < self.topic_list_state.topics@.len() {
                Some(
                    &self.topic_list_state.topics@[self.topic_list_state.selected_index as int],
                )
            } else {
                None
            },
    {
        self.topic_list_state.get_selected_topic()
    }

    /// The selected message, if there is one.
    pub fn get_selected_message(&self) -> (row: Option<&Message>)
        ensures
            row == if self.message_list_state.has_selection() {
                Some(
                    &self.message_list_state.messages@[self.message_list_state.selected_index as int],
                )
            } else {
                None
            },
    {
        self.message_list_state.get_selected_message()
    }

    /// Where the terminal cursor belongs on the message list.
    pub fn get_message_list_cursor_position(&self) -> (cell: Option<(u16, u16)>)
        ensures
            cell == self.message_list_state.cursor_cell(),
    {
        self.message_list_state.get_cursor_position()
    }

    /// Why the payload filter of the message list was not applied.
    pub fn get_message_list_filter_error(&self) -> (error: &Option<String>)
        ensures
            *error == self.message_list_state.filter_error,
    {
        &self.message_list_state.filter_error
    }

    /// The message list.
    pub fn get_message_list_state(&self) -> (list: &MessageListState)
        ensures
            *list == self.message_list_state,
    {
        &self.message_list_state
    }

    /// First line shown in the payload view.
    pub fn get_payload_detail_scroll_offset(&self) -> (offset: usize)
        ensures
            offset == self.payload_detail_scroll_offset,
    {
        self.payload_detail_scroll_offset
    }

    /// Sets the first line shown in the payload view.
    pub fn set_payload_detail_scroll_offset(&mut self, offset: usize)
        ensures
            *final(self) == (App { payload_detail_scroll_offset: offset, ..*old(self) }),
    {
        self.payload_detail_scroll_offset = offset;
    }

    /// The part of a message that Copy takes in the payload view.
    pub fn get_payload_detail_selection(&self) -> (selection: PayloadDetailSelection)
        ensures
            selection == self.payload_detail_selection,
    {
        self.payload_detail_selection
    }

    /// Lines of the payload view on the current terminal.
    pub fn get_payload_detail_page_size(&self) -> (rows: usize)
        ensures
            rows as int == detail_rows_for_height(self.terminal_height as int),
    {
        let rest: u16 = self.terminal_height.saturating_sub(7);
        rest as usize
    }

    /// Fits the topic list and the message list to the height of the
    /// terminal.
    pub fn update_visible_rows(&mut self)
        ensures
            *final(self) == (App {
                topic_list_state: (TopicListState {
                    visible_rows: topic_rows_for_height(old(self).terminal_height as int) as usize,
                    ..old(self).topic_list_state
                }).selecting(old(self).topic_list_state.selected_index as int),
                message_list_state: MessageListState {
                    per_page: crate::message_list::rows_for_height(
                        old(self).terminal_height as int,
                    ) as usize,
                    ..old(self).message_list_state
                },
                ..*old(self)
            }),
    {
        let rest: u16 = self.terminal_height.saturating_sub(10);
        self.topic_list_state.set_visible_rows(rest as usize);
        self.message_list_state.update_per_page(self.terminal_height);
    }

    /// Host, colon, port of the broker.
    pub fn broker(&self) -> (address: String)
        ensures
            address@ == broker_address(self.mqtt_host@, self.mqtt_port),
    {
        let mut address: String = self.mqtt_host.clone();
        proof {
            reveal_strlit(":");
        }
        address.append(":");
        let port: String = decimal_text(self.mqtt_port as u64);
        address.append(port.as_str());
        assert(address@ =~= broker_address(self.mqtt_host@, self.mqtt_port));
        address
    }

    /// Shows a connection state in the status rows. A connected state
    /// always shows the address of the configured broker, whatever address
    /// it came with.
    pub fn set_connection_status(&mut self, status: ConnectionStatus)
        ensures
            *final(self) == (App {
                status_bar_state: StatusBarState {
                    connection_status: final(self).status_bar_state.connection_status,
                    ..old(self).status_bar_state
                },
                ..*old(self)
            }),
            match status {
                ConnectionStatus::Connected(given) => final(self).status_bar_state.connection_status matches ConnectionStatus::Connected(shown)
                    && shown@ == broker_address(old(self).mqtt_host@, old(self).mqtt_port),
                _ => final(self).status_bar_state.connection_status == status,
            },
    {
        match status {
            ConnectionStatus::Connected(given) => {
                self.status_bar_state.connection_status = ConnectionStatus::Connected(
                    self.broker(),
                );
            },
            other => {
                self.status_bar_state.connection_status = other;
            },
        }
    }

    /// Shows whether the broker is connected.
    pub fn update_connection_status_from_mqtt(&mut self, is_connected: bool)
        ensures
            *final(self) == (App {
                status_bar_state: StatusBarState {
                    connection_status: final(self).status_bar_state.connection_status,
                    ..old(self).status_bar_state
                },
                ..*old(self)
            }),
            if is_connected {
                final(self).status_bar_state.connection_status matches ConnectionStatus::Connected(
                    shown,
                ) && shown@ == broker_address(old(self).mqtt_host@, old(self).mqtt_port)
            } else {
                final(self).status_bar_state.connection_status is Disconnected
            },
    {
        if is_connected {
            let address: String = self.broker();
            self.set_connection_status(ConnectionStatus::Connected(address));
        } else {
            self.set_connection_status(ConnectionStatus::Disconnected);
        }
    }

    /// Tells whether a periodic refresh is due: the interval has passed and
    /// a list is shown.
    pub fn refresh_due(&self, elapsed_ms: u64) -> (due: bool)
        ensures
            due == (elapsed_ms >= self.refresh_interval_ms && (self.state == AppState::TopicList
                || self.state == AppState::MessageList)),
    {
        elapsed_ms >= self.refresh_interval_ms && (self.state == AppState::TopicList || self.state
            == AppState::MessageList)
    }
}

/// Right after the frames were kept, nothing counts as changed, unless the
/// connection is in error: an error is drawn on every frame.
pub proof fn lemma_kept_frames_show_no_change(app: App)
    requires
        app.prev_filter_state == Some(app.filter_state),
        app.prev_status_bar_state is Some,
        app.prev_status_bar_state->0.quick_filter_states@
            == app.status_bar_state.quick_filter_states@,
        app.prev_status_bar_state->0 == (StatusBarState {
            quick_filter_states: app.prev_status_bar_state->0.quick_filter_states,
            ..app.status_bar_state
        }),
        app.prev_topic_list_state is Some,
        app.prev_topic_list_state->0.topics@ == app.topic_list_state.topics@,
        app.prev_topic_list_state->0 == (TopicListState {
            topics: app.prev_topic_list_state->0.topics,
            ..app.topic_list_state
        }),
    ensures
        shows_same(app.prev_filter_state->0, app.filter_state),
        same_topics(app.prev_topic_list_state->0, app.topic_list_state),
        !(app.status_bar_state.connection_status is Error) ==> same_status(
            app.prev_status_bar_state->0,
            app.status_bar_state,
        ),
        !app.needs_full_redraw && !(app.status_bar_state.connection_status is Error)
            ==> app.regions_changed() == (Repaint {
            filter_bar: false,
            topic_list: false,
            status_line: false,
            help_line: false,
        }),
        app.regions_changed().help_line == app.needs_full_redraw,
{
}

} // verus!
