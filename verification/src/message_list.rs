//! The message list of one topic: paging, filters, input fields and the
//! digit-wheel editor of the time fields.
//!
//! The list never talks to the store. An operation that needs rows returns a
//! [`NavStep::Load`] with the two queries to run; the caller runs them and
//! hands the rows to [`MessageListState::resume`].

use crate::config::{default_rules, leading_rules, QuickFilter, QUICK_FILTER_SLOTS};
use crate::datetime::{
    clock_text, datetime_format, is_clock_text, local_clock, local_instant, parse_datetime,
    parsed_datetime, staged_on_entry, text_on_entry, utc_instant, utc_instant_of, write_datetime,
    written, DateTimeParts, TimeEditPosition, Timestamp,
};
use crate::models::{clone_text, store_count, FilterCriteria, Message};
use crate::pattern::{is_valid_regex, regex_error, regex_error_of};
use crate::quick_filter::shown;
use crate::text::{insert_char, insert_text, remove_char};
use vstd::prelude::*;
use vstd::string::*;

verus! {

/// What the keyboard acts on.
#[derive(Clone, Copy, Debug, PartialEq, Eq, Structural)]
pub enum FocusTarget {
    PayloadFilter,
    TimeFilterFrom,
    TimeFilterTo,
    MessageList,
}

/// The state of the message list.
#[derive(Debug)]
pub struct MessageListState {
    /// The rows of the current page, newest first.
    pub messages: Vec<Message>,
    pub selected_index: usize,
    pub scroll_offset: usize,
    pub current_topic: Option<String>,
    /// The query that the next load starts from.
    pub filter: FilterCriteria,
    /// Number of rows over all pages that the quick filters let through.
    pub total_count: usize,
    /// Current page, counted from 1.
    pub page: usize,
    pub per_page: usize,
    pub focus: FocusTarget,
    pub payload_filter_input: String,
    pub time_from_input: String,
    pub time_to_input: String,
    pub is_editing: bool,
    /// Why the payload filter was not applied, if it was not.
    pub filter_error: Option<String>,
    /// Position of the cursor in the active input, in characters.
    pub cursor_position: usize,
    /// A first Delete was pressed on the selected row.
    pub delete_confirmation: bool,
    pub time_edit_mode: bool,
    pub time_edit_position: TimeEditPosition,
    /// The value staged by the digit wheel.
    pub temp_datetime: Option<DateTimeParts>,
    /// The text that the time field held when the digit wheel was entered.
    pub time_edit_backup: Option<String>,
    /// One switch per quick-filter slot.
    pub quick_filter_states: Vec<bool>,
    /// The rules behind the slots, at most one per slot.
    pub quick_filter_rules: Vec<QuickFilter>,
}

/// The message list itself; drawing it is left to the caller.
pub struct MessageListView;

/// The two queries of one load: the rows of the current page, and every
/// row of the topic under the same filters, from which the total is counted.
#[derive(Debug)]
pub struct LoadRequest {
    pub topic: String,
    pub page_filter: FilterCriteria,
    pub count_filter: FilterCriteria,
}

/// What the store answered to a [`LoadRequest`].
#[derive(Debug)]
pub enum LoadReply {
    /// The rows of the page query and those of the count query, newest
    /// first.
    Rows { page: Vec<Message>, all: Vec<Message> },
    /// One of the two queries failed.
    Failed,
}

/// What is left to do once the rows of a load are in.
#[derive(Clone, Copy, Debug, PartialEq, Eq, Structural)]
pub enum AfterLoad {
    /// Keep the selection where the load left it.
    Stay,
    /// Select the first row.
    SelectFirst,
    /// Select the last row.
    SelectLast,
    /// Select the last row, then load once more.
    SelectLastThenReload,
    /// Select the first row; if the page came back empty, return to the
    /// page that was shown before, load that, and select the row that was
    /// selected before.
    FirstOrRevert { previous_page: usize, previous_index: usize },
    /// Select the row at this index, or the last row if the page is
    /// shorter.
    SelectAt(usize),
    /// If the page holds rows, call it the first page and select its first
    /// row.
    SelectNewest,
}

/// Where the list stood before an operation: the page and the selection
/// that a failed load returns to.
#[derive(Clone, Copy, Debug, PartialEq, Eq, Structural)]
pub struct Fallback {
    pub page: usize,
    pub selected_index: usize,
}

/// The outcome of an operation that may need rows from the store.
#[derive(Debug)]
pub enum NavStep {
    /// Nothing is left to do.
    Done,
    /// Run the queries of `request` and hand the answer, with `then` and
    /// `fallback`, to [`MessageListState::resume`].
    Load { request: LoadRequest, then: AfterLoad, fallback: Fallback },
}

/// What is to follow a load, and where a failed load returns to, never
/// lead back to a page before the first.
pub open spec fn rule_is_sound(then: AfterLoad, fallback: Fallback) -> bool {
    &&& then matches AfterLoad::FirstOrRevert { previous_page, previous_index } ==> previous_page
        >= 1
    &&& fallback.page >= 1
}

/// A step that asks for rows asks for a sound rule to follow.
pub open spec fn step_is_sound(step: NavStep) -> bool {
    step matches NavStep::Load { request, then, fallback } ==> rule_is_sound(then, fallback)
}

/// The selection after a step up within the page.
pub open spec fn stepped_up(selected: int) -> int {
    if selected > 0 {
        selected - 1
    } else {
        0
    }
}

/// The selection after a step down within a page of `len` rows.
pub open spec fn stepped_down(selected: int, len: int) -> int {
    if selected < len - 1 {
        selected + 1
    } else {
        selected
    }
}

/// The selection after a run of steps within a page of `len` rows; `true`
/// is a step down, `false` a step up.
pub open spec fn after_steps(selected: int, len: int, downs: Seq<bool>) -> int
    decreases downs.len(),
{
    if downs.len() == 0 {
        selected
    } else if downs.last() {
        stepped_down(after_steps(selected, len, downs.drop_last()), len)
    } else {
        stepped_up(after_steps(selected, len, downs.drop_last()))
    }
}

/// The selection that a load leaves: unmoved if it still points at a row,
/// else the last row, and 0 on an empty page.
pub open spec fn clamped(selected: int, len: int) -> int {
    if len <= 0 {
        0
    } else if selected >= len {
        len - 1
    } else {
        selected
    }
}

/// The bound that a time field yields when every load reads it afresh:
/// none for an empty field; the instant at which the local clock shows the
/// text, if the text reads as a date and `local` is that instant; the bound
/// as it was otherwise.
pub open spec fn bound_read(text: Seq<char>, pre: Option<Timestamp>, local: Option<Timestamp>) -> Option<
    Timestamp,
> {
    if text.len() == 0 {
        None
    } else if parsed_datetime(text, datetime_format()) is Some && local is Some {
        local
    } else {
        pre
    }
}

/// The bound that a time field yields when it is read as UTC: none for an
/// empty field or for text that does not read as a date.
pub open spec fn bound_as_utc(text: Seq<char>) -> Option<Timestamp> {
    if text.len() == 0 {
        None
    } else {
        match parsed_datetime(text, datetime_format()) {
            Some(p) => Some(utc_instant_of(p)),
            None => None,
        }
    }
}

/// The payload pattern that the payload field yields: none for an empty
/// field, the text if it compiles, and the pattern as it was otherwise.
pub open spec fn payload_read(text: Seq<char>, pre: Option<String>, post: Option<String>) -> bool {
    if text.len() == 0 {
        post is None
    } else if is_valid_regex(text) {
        post is Some && post->0@ == text
    } else {
        post == pre
    }
}

/// The message shown for a pattern that does not compile.
pub open spec fn regex_complaint(pattern: Seq<char>) -> Seq<char> {
    "Regex error: "@ + regex_error_of(pattern)->0
}

impl FocusTarget {
    /// The focus is on one of the two time fields.
    pub open spec fn is_time_field(self) -> bool {
        self == FocusTarget::TimeFilterFrom || self == FocusTarget::TimeFilterTo
    }

    /// The focus after Tab.
    pub open spec fn following(self) -> FocusTarget {
        match self {
            FocusTarget::PayloadFilter => FocusTarget::TimeFilterFrom,
            FocusTarget::TimeFilterFrom => FocusTarget::TimeFilterTo,
            FocusTarget::TimeFilterTo => FocusTarget::MessageList,
            FocusTarget::MessageList => FocusTarget::PayloadFilter,
        }
    }

    /// Tells whether the focus is on one of the two time fields.
    pub fn on_time_field(self) -> (r: bool)
        ensures
            r == self.is_time_field(),
    {
        match self {
            FocusTarget::TimeFilterFrom => true,
            FocusTarget::TimeFilterTo => true,
            _ => false,
        }
    }
}

/// Rows that stand before the given page.
pub open spec fn rows_before(page: int, per_page: int) -> int {
    if page >= 1 {
        (page - 1) * per_page
    } else {
        0
    }
}

/// The last page of `total` rows: pages of `per_page` rows, at least one
/// page, and one page when a page holds no row.
pub open spec fn last_page_of(total: int, per_page: int) -> int {
    if total <= 0 || per_page <= 0 {
        1
    } else {
        (total - 1) / per_page + 1
    }
}

/// Rows that fit under the five header rows and above the two status rows
/// and the border.
pub open spec fn rows_for_height(terminal_height: int) -> int {
    if terminal_height >= 8 {
        terminal_height - 8
    } else {
        0
    }
}

impl MessageListState {
    /// The invariants of the list: the selection points at a row of the
    /// page, or at 0 on an empty page; pages count from 1; only a field is
    /// edited, and the digit wheel turns only while a time field is edited;
    /// there are five switches and at most as many rules; a staged value
    /// names a day that exists.
    pub open spec fn wf(self) -> bool {
        &&& self.messages@.len() == 0 ==> self.selected_index == 0
        &&& self.messages@.len() > 0 ==> self.selected_index < self.messages@.len()
        &&& self.wf_apart_from_selection()
    }

    /// The invariants of the list that do not speak of the selection.
    pub open spec fn wf_apart_from_selection(self) -> bool {
        &&& self.page >= 1
        &&& self.is_editing ==> self.focus != FocusTarget::MessageList
        &&& self.time_edit_mode ==> self.focus.is_time_field() && self.is_editing
        &&& self.quick_filter_states@.len() == QUICK_FILTER_SLOTS
        &&& self.quick_filter_rules@.len() <= QUICK_FILTER_SLOTS
        &&& self.temp_datetime is Some ==> self.temp_datetime->0.is_valid()
    }

    /// The text of the input that has the focus; empty for the list.
    pub open spec fn active_text(self) -> Seq<char> {
        match self.focus {
            FocusTarget::PayloadFilter => self.payload_filter_input@,
            FocusTarget::TimeFilterFrom => self.time_from_input@,
            FocusTarget::TimeFilterTo => self.time_to_input@,
            FocusTarget::MessageList => Seq::empty(),
        }
    }

    /// `post` is `self` but for the cursor and the text of the input that
    /// has the focus.
    pub open spec fn edited_into(self, post: MessageListState) -> bool {
        match self.focus {
            FocusTarget::PayloadFilter => post == (MessageListState {
                payload_filter_input: post.payload_filter_input,
                cursor_position: post.cursor_position,
                ..self
            }),
            FocusTarget::TimeFilterFrom => post == (MessageListState {
                time_from_input: post.time_from_input,
                cursor_position: post.cursor_position,
                ..self
            }),
            FocusTarget::TimeFilterTo => post == (MessageListState {
                time_to_input: post.time_to_input,
                cursor_position: post.cursor_position,
                ..self
            }),
            FocusTarget::MessageList => post == (MessageListState {
                cursor_position: post.cursor_position,
                ..self
            }),
        }
    }

    /// The text of the time field that has the focus; empty elsewhere.
    pub open spec fn active_time_text(self) -> Seq<char> {
        match self.focus {
            FocusTarget::TimeFilterFrom => self.time_from_input@,
            FocusTarget::TimeFilterTo => self.time_to_input@,
            _ => Seq::empty(),
        }
    }

    /// `post` is `self` but for the digit-wheel fields and the text of the
    /// time field that has the focus.
    pub open spec fn wheel_turned_into(self, post: MessageListState) -> bool {
        match self.focus {
            FocusTarget::TimeFilterFrom => post == (MessageListState {
                time_from_input: post.time_from_input,
                time_edit_mode: post.time_edit_mode,
                time_edit_position: post.time_edit_position,
                temp_datetime: post.temp_datetime,
                time_edit_backup: post.time_edit_backup,
                ..self
            }),
            FocusTarget::TimeFilterTo => post == (MessageListState {
                time_to_input: post.time_to_input,
                time_edit_mode: post.time_edit_mode,
                time_edit_position: post.time_edit_position,
                temp_datetime: post.temp_datetime,
                time_edit_backup: post.time_edit_backup,
                ..self
            }),
            _ => post == self,
        }
    }

    /// The largest index that the selection may take.
    pub open spec fn last_index(self) -> int {
        if self.messages@.len() == 0 {
            0
        } else {
            self.messages@.len() - 1
        }
    }

    /// There are rows after the current page.
    pub open spec fn has_next_page(self) -> bool {
        self.page * self.per_page < self.total_count && self.page < usize::MAX
    }

    /// The periodic refresh may reload: the list is empty, or the newest row
    /// of the first page is selected.
    pub open spec fn follows_newest(self) -> bool {
        self.messages@.len() == 0 || (self.page == 1 && self.selected_index == 0)
    }

    /// Rows that fit on a terminal of the given height.
    pub fn calculate_per_page(terminal_height: u16) -> (rows: usize)
        ensures
            rows as int == rows_for_height(terminal_height as int),
    {
        let rest: u16 = terminal_height.saturating_sub(8);
        rest as usize
    }

    /// Adopts the page size that fits the terminal.
    pub fn update_per_page(&mut self, terminal_height: u16)
        ensures
            *final(self) == (MessageListState {
                per_page: rows_for_height(terminal_height as int) as usize,
                ..*old(self)
            }),
            old(self).wf() ==> final(self).wf(),
    {
        self.per_page = Self::calculate_per_page(terminal_height);
    }

    /// Drops the rows and goes back to the first page.
    pub fn clear(&mut self)
        ensures
            final(self).messages@.len() == 0,
            *final(self) == (MessageListState {
                messages: final(self).messages,
                selected_index: 0,
                scroll_offset: 0,
                total_count: 0,
                page: 1,
                ..*old(self)
            }),
            old(self).wf() ==> final(self).wf(),
    {
        self.messages.clear();
        self.selected_index = 0;
        self.scroll_offset = 0;
        self.total_count = 0;
        self.page = 1;
    }

    /// Enters a topic: the rows of the old one go, the filters stay.
    pub fn set_topic(&mut self, topic: String)
        ensures
            final(self).messages@.len() == 0,
            *final(self) == (MessageListState {
                messages: final(self).messages,
                current_topic: Some(topic),
                selected_index: 0,
                scroll_offset: 0,
                total_count: 0,
                page: 1,
                ..*old(self)
            }),
            old(self).wf() ==> final(self).wf(),
    {
        self.current_topic = Some(topic);
        self.clear();
    }

    /// Moves the selection one row up, within the page.
    pub fn move_up(&mut self)
        ensures
            *final(self) == (MessageListState {
                selected_index: stepped_up(old(self).selected_index as int) as usize,
                ..*old(self)
            }),
            old(self).wf() ==> final(self).wf(),
    {
        if self.selected_index > 0 {
            self.selected_index = self.selected_index - 1;
        }
    }

    /// Moves the selection one row down, within the page.
    pub fn move_down(&mut self)
        ensures
            *final(self) == (MessageListState {
                selected_index: stepped_down(
                    old(self).selected_index as int,
                    old(self).messages@.len() as int,
                ) as usize,
                ..*old(self)
            }),
            old(self).wf() ==> final(self).wf(),
    {
        if self.selected_index < self.messages.len().saturating_sub(1) {
            self.selected_index = self.selected_index + 1;
        }
    }

    /// Moves the selection ten rows up, within the page.
    pub fn page_up_selection(&mut self)
        ensures
            *final(self) == (MessageListState {
                selected_index: if old(self).selected_index >= 10 {
                    (old(self).selected_index - 10) as usize
                } else {
                    0
                },
                ..*old(self)
            }),
            old(self).wf() ==> final(self).wf(),
    {
        self.selected_index = self.selected_index.saturating_sub(10);
    }

    /// Moves the selection ten rows down, within the page.
    pub fn page_down_selection(&mut self)
        ensures
            *final(self) == (MessageListState {
                selected_index: if old(self).selected_index + 10 <= old(self).last_index() {
                    (old(self).selected_index + 10) as usize
                } else {
                    old(self).last_index() as usize
                },
                ..*old(self)
            }),
            old(self).wf() ==> final(self).wf(),
    {
        let last: usize = self.messages.len().saturating_sub(1);
        let target: usize = self.selected_index.saturating_add(10);
        self.selected_index = if target <= last {
            target
        } else {
            last
        };
    }

    /// The selected row, if the page has one there.
    pub fn get_selected_message(&self) -> (row: Option<&Message>)
        ensures
            row == if self.selected_index < self.messages@.len() {
                Some(&self.messages@[self.selected_index as int])
            } else {
                None
            },
    {
        if self.selected_index < self.messages.len() {
            Some(&self.messages[self.selected_index])
        } else {
            None
        }
    }

    /// Moves the focus to the next field, and from the last field to the
    /// list.
    pub fn next_focus(&mut self)
        ensures
            *final(self) == (MessageListState {
                focus: old(self).focus.following(),
                ..*old(self)
            }),
    {
        self.focus = match self.focus {
            FocusTarget::PayloadFilter => FocusTarget::TimeFilterFrom,
            FocusTarget::TimeFilterFrom => FocusTarget::TimeFilterTo,
            FocusTarget::TimeFilterTo => FocusTarget::MessageList,
            FocusTarget::MessageList => FocusTarget::PayloadFilter,
        };
    }

    /// What the keyboard acts on.
    pub fn get_focus(&self) -> (focus: &FocusTarget)
        ensures
            *focus == self.focus,
    {
        &self.focus
    }

    /// Puts the focus on `focus`.
    pub fn set_focus(&mut self, focus: FocusTarget)
        ensures
            *final(self) == (MessageListState { focus, ..*old(self) }),
    {
        self.focus = focus;
    }

    /// The text of the input that has the focus; empty for the list.
    pub fn get_active_input(&self) -> (text: &str)
        ensures
            text@ == self.active_text(),
    {
        match self.focus {
            FocusTarget::PayloadFilter => self.payload_filter_input.as_str(),
            FocusTarget::TimeFilterFrom => self.time_from_input.as_str(),
            FocusTarget::TimeFilterTo => self.time_to_input.as_str(),
            FocusTarget::MessageList => {
                proof {
                    reveal_strlit("");
                }
                assert(""@ =~= Seq::<char>::empty());
                ""
            },
        }
    }

    /// The input that has the focus, to be written to; nothing for the
    /// list. What is written becomes the text of that input, and nothing
    /// else changes.
    pub fn get_active_input_mut(&mut self) -> (text: Option<&mut String>)
        ensures
            match text {
                Some(input) => match old(self).focus {
                    FocusTarget::PayloadFilter => *input == old(self).payload_filter_input
                        && *final(self) == (MessageListState {
                        payload_filter_input: *final(input),
                        ..*old(self)
                    }),
                    FocusTarget::TimeFilterFrom => *input == old(self).time_from_input && *final(self) == (MessageListState { time_from_input: *final(input), ..*old(self) }),
                    FocusTarget::TimeFilterTo => *input == old(self).time_to_input && *final(self)
                        == (MessageListState { time_to_input: *final(input), ..*old(self) }),
                    FocusTarget::MessageList => false,
                },
                None => old(self).focus == FocusTarget::MessageList && *final(self) == *old(self),
            },
    {
        match self.focus {
            FocusTarget::PayloadFilter => Some(&mut self.payload_filter_input),
            FocusTarget::TimeFilterFrom => Some(&mut self.time_from_input),
            FocusTarget::TimeFilterTo => Some(&mut self.time_to_input),
            FocusTarget::MessageList => None,
        }
    }

    /// Switches one quick filter; an index without a slot switches nothing.
    pub fn toggle_quick_filter(&mut self, index: usize)
        ensures
            final(self).quick_filter_states@ == crate::quick_filter::toggled(
                old(self).quick_filter_states@,
                index as int,
            ),
            *final(self) == (MessageListState {
                quick_filter_states: final(self).quick_filter_states,
                ..*old(self)
            }),
            old(self).wf() ==> final(self).wf(),
    {
        if index < self.quick_filter_states.len() {
            let now: bool = !self.quick_filter_states[index];
            self.quick_filter_states.set(index, now);
        }
    }

    /// The switch of one quick filter; off for an index without a slot.
    pub fn get_quick_filter_state(&self, index: usize) -> (on: bool)
        ensures
            on == (index < self.quick_filter_states@.len() && self.quick_filter_states@[index as int]),
    {
        index < self.quick_filter_states.len() && self.quick_filter_states[index]
    }

    /// Keeps the rows that the quick filters let through.
    pub fn apply_quick_filters(&self, messages: Vec<Message>) -> (kept: Vec<Message>)
        ensures
            kept@ == shown(self.quick_filter_rules@, self.quick_filter_states@, messages@),
    {
        crate::quick_filter::apply_quick_filters(
            &self.quick_filter_rules,
            &self.quick_filter_states,
            messages,
        )
    }

    /// A list as it is before anything was loaded or typed.
    pub open spec fn is_fresh(self) -> bool {
        &&& self.messages@.len() == 0
        &&& self.selected_index == 0
        &&& self.scroll_offset == 0
        &&& self.current_topic is None
        &&& self.filter == (FilterCriteria {
            topic_regex: None,
            payload_regex: None,
            start_time: None,
            end_time: None,
            limit: Some(1000),
            offset: Some(0),
        })
        &&& self.total_count == 0
        &&& self.page == 1
        &&& self.per_page == 10
        &&& self.focus == FocusTarget::MessageList
        &&& self.payload_filter_input@.len() == 0
        &&& !self.is_editing
        &&& self.filter_error is None
        &&& self.cursor_position == 0
        &&& !self.delete_confirmation
        &&& !self.time_edit_mode
        &&& self.time_edit_position == TimeEditPosition::Day
        &&& self.temp_datetime is None
        &&& self.time_edit_backup is None
        &&& self.quick_filter_states@ == seq![true, true, true, true, true]
        &&& crate::config::are_default_rules(self.quick_filter_rules@)
    }

    /// A list as it is before anything was loaded or typed, but with its
    /// slots bound to the first of the given rules.
    pub open spec fn is_fresh_with(self, rules: Seq<QuickFilter>) -> bool {
        &&& self.messages@.len() == 0
        &&& self.selected_index == 0
        &&& self.current_topic is None
        &&& self.total_count == 0
        &&& self.page == 1
        &&& self.per_page == 10
        &&& self.focus == FocusTarget::MessageList
        &&& self.payload_filter_input@.len() == 0
        &&& !self.is_editing
        &&& self.filter_error is None
        &&& !self.delete_confirmation
        &&& !self.time_edit_mode
        &&& self.quick_filter_states@ == seq![true, true, true, true, true]
        &&& self.quick_filter_rules@ == rules.take(
            if rules.len() <= QUICK_FILTER_SLOTS {
                rules.len() as int
            } else {
                QUICK_FILTER_SLOTS as int
            },
        )
    }

    /// A fresh list whose time fields hold the given texts.
    pub fn with_time_window(time_from_input: String, time_to_input: String) -> (list:
        MessageListState)
        ensures
            list.is_fresh(),
            list.wf(),
            list.time_from_input == time_from_input,
            list.time_to_input == time_to_input,
    {
        let mut switches: Vec<bool> = Vec::new();
        switches.push(true);
        switches.push(true);
        switches.push(true);
        switches.push(true);
        switches.push(true);
        assert(switches@ =~= seq![true, true, true, true, true]);
        MessageListState {
            messages: Vec::new(),
            selected_index: 0,
            scroll_offset: 0,
            current_topic: None,
            filter: FilterCriteria::default(),
            total_count: 0,
            page: 1,
            per_page: 10,
            focus: FocusTarget::MessageList,
            payload_filter_input: String::new(),
            time_from_input,
            time_to_input,
            is_editing: false,
            filter_error: None,
            cursor_position: 0,
            delete_confirmation: false,
            time_edit_mode: false,
            time_edit_position: TimeEditPosition::Day,
            temp_datetime: None,
            time_edit_backup: None,
            quick_filter_states: switches,
            quick_filter_rules: default_rules(),
        }
    }

    /// A fresh list whose time fields span from a day ago to a day ahead on
    /// the local clock.
    pub fn new() -> (list: MessageListState)
        ensures
            list.is_fresh(),
            list.wf(),
            is_clock_text(list.time_from_input@),
            is_clock_text(list.time_to_input@),
    {
        Self::with_time_window(clock_text(-1), clock_text(1))
    }

    /// Starts editing the field that has the focus. On a time field this
    /// enters the digit wheel; on the payload filter the cursor goes to the
    /// end of the text. On the list nothing happens.
    pub fn start_editing(&mut self)
        ensures
            old(self).focus == FocusTarget::MessageList ==> *final(self) == *old(self),
            old(self).focus == FocusTarget::PayloadFilter ==> *final(self) == (MessageListState {
                is_editing: true,
                cursor_position: old(self).payload_filter_input@.len() as usize,
                ..*old(self)
            }),
            old(self).focus.is_time_field() ==> (MessageListState {
                is_editing: true,
                ..*old(self)
            }).entered(*final(self)),
            old(self).wf() ==> final(self).wf(),
    {
        match self.focus {
            FocusTarget::MessageList => {},
            FocusTarget::PayloadFilter => {
                self.is_editing = true;
                self.cursor_position = self.payload_filter_input.as_str().unicode_len();
            },
            _ => {
                self.is_editing = true;
                let ghost mid = *self;
                assert(mid == (MessageListState { is_editing: true, ..*old(self) }));
                self.enter_time_edit_mode();
            },
        }
    }

    /// `self` with editing stopped, and with it the digit wheel.
    pub open spec fn stopped(self) -> MessageListState {
        MessageListState {
            is_editing: false,
            time_edit_mode: false,
            temp_datetime: if self.time_edit_mode {
                None
            } else {
                self.temp_datetime
            },
            time_edit_backup: if self.time_edit_mode {
                None
            } else {
                self.time_edit_backup
            },
            ..self
        }
    }

    /// Stops editing, and with it the digit wheel.
    pub fn stop_editing(&mut self)
        ensures
            *final(self) == old(self).stopped(),
            old(self).wf() ==> final(self).wf(),
    {
        self.is_editing = false;
        if self.time_edit_mode {
            self.time_edit_mode = false;
            self.temp_datetime = None;
            self.time_edit_backup = None;
        }
    }

    /// Moves the cursor one character to the left, if it is not at the
    /// start.
    pub fn move_cursor_left(&mut self)
        ensures
            *final(self) == (MessageListState {
                cursor_position: if old(self).cursor_position > 0 {
                    (old(self).cursor_position - 1) as usize
                } else {
                    0
                },
                ..*old(self)
            }),
    {
        if self.cursor_position > 0 {
            self.cursor_position = self.cursor_position - 1;
        }
    }

    /// Moves the cursor one character to the right, if it is not at the end
    /// of the active text.
    pub fn move_cursor_right(&mut self)
        ensures
            *final(self) == (MessageListState {
                cursor_position: if old(self).cursor_position < old(self).active_text().len() {
                    (old(self).cursor_position + 1) as usize
                } else {
                    old(self).cursor_position
                },
                ..*old(self)
            }),
    {
        let len: usize = self.get_active_input().unicode_len();
        if self.cursor_position < len {
            self.cursor_position = self.cursor_position + 1;
        }
    }

    /// Moves the cursor to the start.
    pub fn move_cursor_home(&mut self)
        ensures
            *final(self) == (MessageListState { cursor_position: 0, ..*old(self) }),
    {
        self.cursor_position = 0;
    }

    /// Moves the cursor behind the last character of the active text.
    pub fn move_cursor_end(&mut self)
        ensures
            *final(self) == (MessageListState {
                cursor_position: old(self).active_text().len() as usize,
                ..*old(self)
            }),
    {
        self.cursor_position = self.get_active_input().unicode_len();
    }

    /// The cursor stands within the text of an input that has the focus.
    pub open spec fn cursor_in_text(self) -> bool {
        self.focus != FocusTarget::MessageList && self.cursor_position <= self.active_text().len()
    }

    /// Puts `text` in the input that has the focus and the cursor at
    /// `cursor`. On the list only the cursor moves.
    fn replace_active(&mut self, text: String, cursor: usize)
        ensures
            old(self).edited_into(*final(self)),
            final(self).cursor_position == cursor,
            old(self).focus != FocusTarget::MessageList ==> final(self).active_text() == text@,
            final(self).focus == old(self).focus,
    {
        self.cursor_position = cursor;
        match self.focus {
            FocusTarget::PayloadFilter => {
                self.payload_filter_input = text;
            },
            FocusTarget::TimeFilterFrom => {
                self.time_from_input = text;
            },
            FocusTarget::TimeFilterTo => {
                self.time_to_input = text;
            },
            FocusTarget::MessageList => {},
        }
    }

    /// What typing `c` gives: the character stands at the cursor and the
    /// cursor behind it. Nothing happens on the list, or with the cursor
    /// outside the text.
    pub open spec fn char_inserted(self, post: MessageListState, c: char) -> bool {
        if self.cursor_in_text() {
            &&& self.edited_into(post)
            &&& post.active_text() == self.active_text().insert(self.cursor_position as int, c)
            &&& post.cursor_position == self.cursor_position + 1
        } else {
            post == self
        }
    }

    /// What Backspace gives: the character before the cursor is gone and
    /// the cursor stands in its place. Nothing happens on the list, at the
    /// start of the text, or with the cursor outside the text.
    pub open spec fn char_deleted(self, post: MessageListState) -> bool {
        if self.cursor_in_text() && self.cursor_position > 0 {
            &&& self.edited_into(post)
            &&& post.active_text() == self.active_text().remove(self.cursor_position - 1)
            &&& post.cursor_position == self.cursor_position - 1
        } else {
            post == self
        }
    }

    /// What pasting `text` gives: the text stands at the cursor and the
    /// cursor behind it. Nothing happens on the list, or with the cursor
    /// outside the text.
    pub open spec fn text_inserted(self, post: MessageListState, text: Seq<char>) -> bool {
        if self.cursor_in_text() {
            &&& self.edited_into(post)
            &&& post.active_text() == self.active_text().subrange(0, self.cursor_position as int)
                + text + self.active_text().subrange(
                self.cursor_position as int,
                self.active_text().len() as int,
            )
            &&& post.cursor_position == self.cursor_position + text.len()
        } else {
            post == self
        }
    }

    /// Inserts `c` at the cursor and moves the cursor behind it. Nothing
    /// happens on the list, or with the cursor outside the text.
    pub fn insert_char_at_cursor(&mut self, c: char)
        ensures
            old(self).char_inserted(*final(self), c),
            old(self).wf() ==> final(self).wf(),
    {
        if self.focus == FocusTarget::MessageList {
            return ;
        }
        let at: usize = self.cursor_position;
        let len: usize = self.get_active_input().unicode_len();
        if at <= len {
            let text: String = insert_char(self.get_active_input(), at, c);
            // The cursor stays within the new text, whose length is a `usize`.
            let end: usize = text.as_str().unicode_len();
            assert(at + 1 <= end);
            self.replace_active(text, at + 1);
        }
    }

    /// Removes the character before the cursor and moves the cursor onto its
    /// place. Nothing happens on the list, at the start of the text, or with
    /// the cursor outside the text.
    pub fn delete_char_at_cursor(&mut self)
        ensures
            old(self).char_deleted(*final(self)),
            old(self).wf() ==> final(self).wf(),
    {
        if self.focus == FocusTarget::MessageList {
            return ;
        }
        let at: usize = self.cursor_position;
        let len: usize = self.get_active_input().unicode_len();
        if at > 0 && at <= len {
            let text: String = remove_char(self.get_active_input(), at - 1);
            self.replace_active(text, at - 1);
        }
    }

    /// Inserts `s` at the cursor and moves the cursor behind it. Nothing
    /// happens on the list, or with the cursor outside the text.
    pub fn insert_string_at_cursor(&mut self, s: &str)
        ensures
            old(self).text_inserted(*final(self), s@),
            old(self).wf() ==> final(self).wf(),
    {
        if self.focus == FocusTarget::MessageList {
            return ;
        }
        let at: usize = self.cursor_position;
        let len: usize = self.get_active_input().unicode_len();
        if at <= len {
            let text: String = insert_text(self.get_active_input(), at, s);
            let added: usize = s.unicode_len();
            // The cursor stays within the new text, whose length is a `usize`.
            let end: usize = text.as_str().unicode_len();
            assert(at + added <= end);
            self.replace_active(text, at + added);
        }
    }

    /// Where the terminal cursor belongs, as column and row, if it is to be
    /// shown at all.
    pub open spec fn cursor_cell(self) -> Option<(u16, u16)> {
        if self.time_edit_mode && self.focus.is_time_field() {
            let field: int = if self.focus == FocusTarget::TimeFilterFrom {
                13
            } else {
                38
            };
            Some(((field + self.time_edit_position.column()) as u16, 2u16))
        } else if !self.is_editing || self.focus == FocusTarget::MessageList {
            None
        } else {
            let offset: int = if self.cursor_position < 19 {
                self.cursor_position as int
            } else {
                19
            };
            let from_len: int = if self.time_from_input@.len() < 19 {
                self.time_from_input@.len() as int
            } else {
                19
            };
            match self.focus {
                FocusTarget::PayloadFilter => Some(((17 + offset) as u16, 1u16)),
                FocusTarget::TimeFilterFrom => Some(((13 + offset) as u16, 2u16)),
                _ => Some(((13 + from_len + 6 + offset) as u16, 2u16)),
            }
        }
    }

    /// Where the terminal cursor belongs, as column and row, if it is to be
    /// shown at all.
    pub fn get_cursor_position(&self) -> (cell: Option<(u16, u16)>)
        ensures
            cell == self.cursor_cell(),
    {
        if self.time_edit_mode && self.focus.on_time_field() {
            let field: u16 = match self.focus {
                FocusTarget::TimeFilterFrom => 13,
                _ => 38,
            };
            return Some((field + self.time_edit_position.cursor_column(), 2));
        }
        if !self.is_editing {
            return None;
        }
        let offset: u16 = if self.cursor_position < 19 {
            self.cursor_position as u16
        } else {
            19
        };
        match self.focus {
            FocusTarget::PayloadFilter => Some((17 + offset, 1)),
            FocusTarget::TimeFilterFrom => Some((13 + offset, 2)),
            FocusTarget::TimeFilterTo => {
                let len: usize = self.time_from_input.as_str().unicode_len();
                let from_len: u16 = if len < 19 {
                    len as u16
                } else {
                    19
                };
                Some((13 + from_len + 6 + offset, 2))
            },
            FocusTarget::MessageList => None,
        }
    }

    /// How entering the digit wheel changes the list, given what the local
    /// clock shows (`now`, if it can be had): on a time field the wheel is
    /// on and stands on the day. A field whose text reads as a date stages
    /// that date and keeps its text. Any other field, empty or not, stages
    /// what the clock shows and shows it in place of its text; the text it
    /// held is kept aside.
    pub open spec fn entered_with(
        self,
        post: MessageListState,
        now: Option<DateTimeParts>,
    ) -> bool {
        if !self.focus.is_time_field() {
            post == self
        } else {
            &&& self.wheel_turned_into(post)
            &&& post.time_edit_mode
            &&& post.time_edit_position == TimeEditPosition::Day
            &&& crate::text::text_view(post.time_edit_backup) == Some(self.active_time_text())
            &&& post.temp_datetime == staged_on_entry(self.active_time_text(), now)
            &&& post.active_time_text() == text_on_entry(self.active_time_text(), now)
        }
    }

    /// Puts `text` in the time field that has the focus.
    fn replace_active_time(&mut self, text: String)
        requires
            old(self).focus.is_time_field(),
        ensures
            old(self).wheel_turned_into(*final(self)),
            final(self).active_time_text() == text@,
            final(self).time_edit_mode == old(self).time_edit_mode,
            final(self).time_edit_position == old(self).time_edit_position,
            final(self).temp_datetime == old(self).temp_datetime,
            final(self).time_edit_backup == old(self).time_edit_backup,
    {
        match self.focus {
            FocusTarget::TimeFilterFrom => {
                self.time_from_input = text;
            },
            _ => {
                self.time_to_input = text;
            },
        }
    }

    /// Enters the digit wheel, given what the local clock shows.
    pub fn enter_time_edit_mode_at(&mut self, now: Option<DateTimeParts>)
        requires
            now is Some ==> now->0.is_valid(),
        ensures
            old(self).entered_with(*final(self), now),
            old(self).wf() && old(self).is_editing ==> final(self).wf(),
    {
        if !self.focus.on_time_field() {
            return ;
        }
        self.time_edit_mode = true;
        self.time_edit_position = TimeEditPosition::Day;
        self.time_edit_backup = Some(
            match self.focus {
                FocusTarget::TimeFilterFrom => self.time_from_input.clone(),
                _ => self.time_to_input.clone(),
            },
        );
        let empty: bool = match self.focus {
            FocusTarget::TimeFilterFrom => self.time_from_input.as_str().unicode_len() == 0,
            _ => self.time_to_input.as_str().unicode_len() == 0,
        };
        let seed: Option<DateTimeParts> = if empty {
            None
        } else {
            match self.focus {
                FocusTarget::TimeFilterFrom => parse_datetime(
                    self.time_from_input.as_str(),
                    "%Y-%m-%d %H:%M:%S",
                ),
                _ => parse_datetime(self.time_to_input.as_str(), "%Y-%m-%d %H:%M:%S"),
            }
        };
        match seed {
            Some(parts) => {
                self.temp_datetime = Some(parts);
            },
            None => {
                self.temp_datetime = now;
                if let Some(shown) = now {
                    let text: String = write_datetime(shown);
                    self.replace_active_time(text);
                }
            },
        }
    }

    /// The list entered the digit wheel under some reading of the local
    /// clock.
    pub open spec fn entered(self, post: MessageListState) -> bool {
        exists|now: Option<DateTimeParts>|
            (now is Some ==> now->0.is_valid()) && #[trigger] self.entered_with(post, now)
    }

    /// Enters the digit wheel: see [`Self::entered_with`], for what the
    /// local clock shows at the time of the call.
    pub fn enter_time_edit_mode(&mut self)
        ensures
            old(self).entered(*final(self)),
            old(self).wf() && old(self).is_editing ==> final(self).wf(),
    {
        let now: Option<DateTimeParts> = local_clock(0);
        self.enter_time_edit_mode_at(now);
        assert(old(self).entered_with(*self, now));
    }

    /// Switches the digit wheel of a time field on or off. Switching it on
    /// is entering it; switching it off drops the staged value and leaves
    /// the text.
    pub fn toggle_time_edit_mode(&mut self)
        ensures
            !old(self).focus.is_time_field() ==> *final(self) == *old(self),
            old(self).focus.is_time_field() && old(self).time_edit_mode ==> *final(self)
                == old(self).wheel_left(),
            old(self).focus.is_time_field() && !old(self).time_edit_mode ==> old(self).entered(
                *final(self),
            ),
            old(self).wf() && old(self).is_editing ==> final(self).wf(),
    {
        if self.focus.on_time_field() {
            if self.time_edit_mode {
                self.leave_time_edit_mode();
            } else {
                self.enter_time_edit_mode();
            }
        }
    }

    /// `self` with the digit wheel off and nothing staged; the text stays.
    pub open spec fn wheel_left(self) -> MessageListState {
        MessageListState {
            time_edit_mode: false,
            temp_datetime: None,
            time_edit_backup: None,
            ..self
        }
    }

    /// Leaves the digit wheel and drops the staged value; the text stays
    /// as the wheel left it.
    pub fn leave_time_edit_mode(&mut self)
        ensures
            *final(self) == old(self).wheel_left(),
            old(self).wf() ==> final(self).wf(),
    {
        self.time_edit_mode = false;
        self.temp_datetime = None;
        self.time_edit_backup = None;
    }

    /// What giving up the digit wheel gives: the wheel is off, nothing is
    /// staged, and a time field that has the focus holds again the text it
    /// held when the wheel was entered.
    pub open spec fn wheel_cancelled(self, post: MessageListState) -> bool {
        if self.time_edit_mode && self.focus.is_time_field() && self.time_edit_backup is Some {
            &&& self.wheel_turned_into(post)
            &&& !post.time_edit_mode
            &&& post.time_edit_position == self.time_edit_position
            &&& post.temp_datetime is None
            &&& post.time_edit_backup is None
            &&& post.active_time_text() == self.time_edit_backup->0@
        } else {
            post == self.wheel_left()
        }
    }

    /// Gives up the digit wheel and restores the text of the time field.
    pub fn cancel_time_edit(&mut self)
        ensures
            old(self).wheel_cancelled(*final(self)),
            old(self).wf() ==> final(self).wf(),
    {
        if self.time_edit_mode && self.focus.on_time_field() {
            if let Some(text) = clone_text(&self.time_edit_backup) {
                self.replace_active_time(text);
            }
        }
        self.leave_time_edit_mode();
    }

    /// Moves the digit wheel one group to the right, if it is on.
    pub fn next_time_position(&mut self)
        ensures
            *final(self) == (MessageListState {
                time_edit_position: if old(self).time_edit_mode {
                    old(self).time_edit_position.following()
                } else {
                    old(self).time_edit_position
                },
                ..*old(self)
            }),
    {
        if self.time_edit_mode {
            self.time_edit_position = self.time_edit_position.next();
        }
    }

    /// Moves the digit wheel one group to the left, if it is on.
    pub fn prev_time_position(&mut self)
        ensures
            *final(self) == (MessageListState {
                time_edit_position: if old(self).time_edit_mode {
                    old(self).time_edit_position.preceding()
                } else {
                    old(self).time_edit_position
                },
                ..*old(self)
            }),
    {
        if self.time_edit_mode {
            self.time_edit_position = self.time_edit_position.prev();
        }
    }

    /// The digit wheel is on, on a time field, with a staged value.
    pub open spec fn wheel_ready(self) -> bool {
        &&& self.time_edit_mode
        &&& self.focus.is_time_field()
        &&& self.temp_datetime is Some
        &&& self.temp_datetime->0.is_valid()
    }

    /// What turning the wheel by `delta` gives: with the wheel on and a
    /// value staged, the active group is adjusted and the field shows the
    /// staged value; otherwise nothing happens.
    pub open spec fn wheel_turned(self, post: MessageListState, delta: int) -> bool {
        if self.wheel_ready() {
            &&& self.wheel_turned_into(post)
            &&& post.time_edit_mode
            &&& post.time_edit_position == self.time_edit_position
            &&& post.time_edit_backup == self.time_edit_backup
            &&& post.temp_datetime == Some(
                self.temp_datetime->0.adjusted(self.time_edit_position, delta),
            )
            &&& post.active_time_text() == written(post.temp_datetime->0)
        } else {
            post == self
        }
    }

    /// Turns the active group of the digit wheel by `delta` and writes the
    /// staged value back into the field. A delta that would take the group
    /// out of its bounds, or the day out of its month, changes no group.
    pub fn adjust_time_value(&mut self, delta: i32)
        ensures
            old(self).wheel_turned(*final(self), delta as int),
            old(self).wf() ==> final(self).wf(),
    {
        if !self.time_edit_mode || !self.focus.on_time_field() {
            return ;
        }
        if let Some(staged) = self.temp_datetime {
            if staged.check_valid() {
                let moved: DateTimeParts = staged.adjust(self.time_edit_position, delta);
                self.temp_datetime = Some(moved);
                let text: String = write_datetime(moved);
                self.replace_active_time(text);
            }
        }
    }

    /// `post` is `self` with its query read afresh from the input fields,
    /// where `from_local` and `to_local` are the instants at which the local
    /// clock shows the two time fields.
    pub open spec fn filter_read_with(
        self,
        post: MessageListState,
        from_local: Option<Timestamp>,
        to_local: Option<Timestamp>,
    ) -> bool {
        &&& post == (MessageListState { filter: post.filter, ..self })
        &&& post.filter == (FilterCriteria {
            payload_regex: post.filter.payload_regex,
            start_time: bound_read(self.time_from_input@, self.filter.start_time, from_local),
            end_time: bound_read(self.time_to_input@, self.filter.end_time, to_local),
            ..self.filter
        })
        &&& payload_read(
            self.payload_filter_input@,
            self.filter.payload_regex,
            post.filter.payload_regex,
        )
    }

    /// `post` is `self` with its query read afresh from the input fields,
    /// under some reading of the local time zone.
    pub open spec fn filter_read(self, post: MessageListState) -> bool {
        exists|from_local: Option<Timestamp>, to_local: Option<Timestamp>| #[trigger]
            self.filter_read_with(post, from_local, to_local)
    }

    /// `request` holds the two queries for the current page of `self`.
    pub open spec fn queries(self, request: LoadRequest) -> bool {
        &&& self.current_topic == Some(request.topic)
        &&& request.page_filter == (FilterCriteria {
            limit: Some(store_count(self.per_page as int)),
            offset: Some(store_count(rows_before(self.page as int, self.per_page as int))),
            ..self.filter
        })
        &&& request.count_filter == (FilterCriteria { limit: None, offset: None, ..self.filter })
    }

    /// `post` is `self` after the rows of a load came in: the page holds
    /// the rows that the quick filters let through, the total counts those
    /// of the whole topic that they let through, and the selection is
    /// clamped to the page.
    pub open spec fn loaded(
        self,
        post: MessageListState,
        page: Seq<Message>,
        all: Seq<Message>,
    ) -> bool {
        &&& post == (MessageListState {
            messages: post.messages,
            total_count: post.total_count,
            selected_index: post.selected_index,
            ..self
        })
        &&& post.messages@ == shown(self.quick_filter_rules@, self.quick_filter_states@, page)
        &&& post.total_count == shown(
            self.quick_filter_rules@,
            self.quick_filter_states@,
            all,
        ).len()
        &&& post.selected_index == clamped(
            self.selected_index as int,
            post.messages@.len() as int,
        )
    }

    /// The list once the selection rule of `then` has been applied to a
    /// freshly loaded page.
    pub open spec fn settled(self, then: AfterLoad) -> MessageListState {
        match then {
            AfterLoad::Stay => self,
            AfterLoad::SelectFirst => MessageListState { selected_index: 0, ..self },
            AfterLoad::SelectLast => MessageListState {
                selected_index: self.last_index() as usize,
                ..self
            },
            AfterLoad::SelectLastThenReload => MessageListState {
                selected_index: self.last_index() as usize,
                ..self
            },
            AfterLoad::FirstOrRevert { previous_page, previous_index } => if self.messages@.len()
                == 0 {
                MessageListState { page: previous_page, ..self }
            } else {
                MessageListState { selected_index: 0, ..self }
            },
            AfterLoad::SelectAt(index) => MessageListState {
                selected_index: clamped(index as int, self.messages@.len() as int) as usize,
                ..self
            },
            AfterLoad::SelectNewest => if self.messages@.len() == 0 {
                self
            } else {
                MessageListState { selected_index: 0, page: 1, ..self }
            },
        }
    }

    /// `then` asks for one more load of the freshly loaded page.
    pub open spec fn repeats(self, then: AfterLoad) -> bool {
        match then {
            AfterLoad::SelectLastThenReload => true,
            AfterLoad::FirstOrRevert { previous_page, previous_index } => self.messages@.len()
                == 0,
            _ => false,
        }
    }

    /// What is left to do after the load that `then` repeats.
    pub open spec fn follow_up(then: AfterLoad) -> AfterLoad {
        match then {
            AfterLoad::FirstOrRevert { previous_page, previous_index } => AfterLoad::SelectAt(
                previous_index,
            ),
            _ => AfterLoad::Stay,
        }
    }

    /// The page and the selection of the list.
    pub open spec fn place(self) -> Fallback {
        Fallback { page: self.page, selected_index: self.selected_index }
    }

    /// `self` back at the place where it stood before a load that failed:
    /// on that page, with that selection as far as the rows allow.
    pub open spec fn fallen_back(self, fallback: Fallback) -> MessageListState {
        MessageListState {
            page: fallback.page,
            selected_index: clamped(
                fallback.selected_index as int,
                self.messages@.len() as int,
            ) as usize,
            ..self
        }
    }

    /// `post` and `step` are what asking for a load of `self` gives, with
    /// `then` to follow and `fallback` to return to: with a topic, the query
    /// is read afresh and the two queries go out; without one there is
    /// nothing to load.
    pub open spec fn asked(
        self,
        post: MessageListState,
        step: NavStep,
        then: AfterLoad,
        fallback: Fallback,
    ) -> bool {
        match self.current_topic {
            Some(topic) => {
                &&& self.filter_read(post)
                &&& step matches NavStep::Load { request, then: next, fallback: back }
                &&& next == then
                &&& back == fallback
                &&& post.queries(request)
            },
            None => post == self && step is Done,
        }
    }

    /// `post` and `step` are what follows a load of `self` under `then`.
    pub open spec fn followed(self, post: MessageListState, step: NavStep, then: AfterLoad) -> bool {
        if self.repeats(then) {
            self.settled(then).asked(post, step, Self::follow_up(then), self.settled(then).place())
        } else {
            post == self.settled(then) && step is Done
        }
    }

    /// `post` and `step` are what starting a load of `self` gives: with a
    /// topic the queries go out; without one the load is void and `then` is
    /// applied at once.
    pub open spec fn began(
        self,
        post: MessageListState,
        step: NavStep,
        then: AfterLoad,
        fallback: Fallback,
    ) -> bool {
        if self.current_topic is Some {
            self.asked(post, step, then, fallback)
        } else {
            post == self.settled(then) && step is Done
        }
    }

    /// `post` and `step` are what the answer of the store gives: after a
    /// failed load the list keeps its rows and stands again where it stood
    /// before the operation; rows are taken in and `then` is applied.
    pub open spec fn resumed(
        self,
        post: MessageListState,
        step: NavStep,
        then: AfterLoad,
        fallback: Fallback,
        reply: LoadReply,
    ) -> bool {
        match reply {
            LoadReply::Failed => post == self.fallen_back(fallback) && step is Done,
            LoadReply::Rows { page, all } => exists|mid: MessageListState|
                {
                    &&& #[trigger] self.loaded(mid, page@, all@)
                    &&& mid.followed(post, step, then)
                },
        }
    }

    /// The instant at which the local clock shows `text`, if the text reads
    /// as a date and the machine's time zone names one instant for it. Text
    /// that does not read as a date has no such instant; for text that does,
    /// the machine's time zone decides.
    fn local_reading(text: &str) -> (instant: Option<Timestamp>)
        ensures
            parsed_datetime(text@, datetime_format()) is None ==> instant is None,
    {
        match parse_datetime(text, "%Y-%m-%d %H:%M:%S") {
            Some(parts) => local_instant(parts),
            None => None,
        }
    }

    /// Reads the query afresh from the input fields, given the instants at
    /// which the local clock shows the two time fields. A payload pattern
    /// that does not compile never reaches the query.
    pub fn update_filter_with(&mut self, from_local: Option<Timestamp>, to_local: Option<Timestamp>)
        ensures
            old(self).filter_read_with(*final(self), from_local, to_local),
            old(self).wf() ==> final(self).wf(),
    {
        if self.payload_filter_input.as_str().unicode_len() == 0 {
            self.filter.payload_regex = None;
        } else if regex_error(self.payload_filter_input.as_str()).is_none() {
            self.filter.payload_regex = Some(self.payload_filter_input.clone());
        }
        if self.time_from_input.as_str().unicode_len() == 0 {
            self.filter.start_time = None;
        } else if from_local.is_some() && parse_datetime(
            self.time_from_input.as_str(),
            "%Y-%m-%d %H:%M:%S",
        ).is_some() {
            self.filter.start_time = from_local;
        }
        if self.time_to_input.as_str().unicode_len() == 0 {
            self.filter.end_time = None;
        } else if to_local.is_some() && parse_datetime(
            self.time_to_input.as_str(),
            "%Y-%m-%d %H:%M:%S",
        ).is_some() {
            self.filter.end_time = to_local;
        }
    }

    /// Reads the query afresh from the input fields; the time fields are
    /// read on the local clock of the machine.
    pub fn update_filter_from_inputs(&mut self)
        ensures
            old(self).filter_read(*final(self)),
            old(self).wf() ==> final(self).wf(),
    {
        let from_local: Option<Timestamp> = Self::local_reading(self.time_from_input.as_str());
        let to_local: Option<Timestamp> = Self::local_reading(self.time_to_input.as_str());
        self.update_filter_with(from_local, to_local);
        assert(old(self).filter_read_with(*self, from_local, to_local));
    }

    /// A count as the store takes it.
    fn to_store_count(n: u128) -> (c: i64)
        ensures
            c == store_count(n as int),
    {
        if n > 9223372036854775807u128 {
            9223372036854775807i64
        } else {
            n as i64
        }
    }

    /// The two queries for the current page, if a topic is set. The query is
    /// read afresh from the input fields first.
    pub fn load_request(&mut self) -> (request: Option<LoadRequest>)
        ensures
            old(self).current_topic is None ==> request is None && *final(self) == *old(self),
            old(self).current_topic is Some ==> request is Some && old(self).filter_read(
                *final(self),
            ) && final(self).queries(request->0),
            old(self).wf() ==> final(self).wf(),
    {
        let topic: String = match &self.current_topic {
            Some(t) => t.clone(),
            None => {
                return None;
            },
        };
        self.update_filter_from_inputs();
        let before: u128 = if self.page >= 1 {
            let pages: u128 = (self.page - 1) as u128;
            let per: u128 = self.per_page as u128;
            assert(pages * per <= 0xFFFF_FFFF_FFFF_FFFF * 0xFFFF_FFFF_FFFF_FFFF) by (nonlinear_arith)
                requires
                    pages <= 0xFFFF_FFFF_FFFF_FFFF,
                    per <= 0xFFFF_FFFF_FFFF_FFFF,
            ;
            pages * per
        } else {
            0
        };
        let mut page_filter: FilterCriteria = self.filter.clone();
        page_filter.limit = Some(Self::to_store_count(self.per_page as u128));
        page_filter.offset = Some(Self::to_store_count(before));
        let mut count_filter: FilterCriteria = self.filter.clone();
        count_filter.limit = None;
        count_filter.offset = None;
        Some(LoadRequest { topic, page_filter, count_filter })
    }

    /// Takes in the rows of a load: those of the page query and those of
    /// the count query, which both succeeded.
    pub fn load_messages(&mut self, page: Vec<Message>, all: Vec<Message>)
        ensures
            old(self).loaded(*final(self), page@, all@),
            old(self).wf_apart_from_selection() ==> final(self).wf(),
    {
        self.messages = self.apply_quick_filters(page);
        let counted: Vec<Message> = self.apply_quick_filters(all);
        self.total_count = counted.len();
        let len: usize = self.messages.len();
        if len == 0 {
            self.selected_index = 0;
        } else if self.selected_index >= len {
            self.selected_index = len - 1;
        }
    }

    /// Asks for a load of the current page, with `then` to follow and
    /// `fallback` to return to.
    fn ask(&mut self, then: AfterLoad, fallback: Fallback) -> (step: NavStep)
        ensures
            old(self).asked(*final(self), step, then, fallback),
            old(self).wf() ==> final(self).wf(),
    {
        match self.load_request() {
            Some(request) => NavStep::Load { request, then, fallback },
            None => NavStep::Done,
        }
    }

    /// The page and the selection of the list.
    pub fn get_place(&self) -> (place: Fallback)
        ensures
            place == self.place(),
    {
        Fallback { page: self.page, selected_index: self.selected_index }
    }

    /// Applies the selection rule of `then` to a freshly loaded page.
    fn settle(&mut self, then: AfterLoad)
        ensures
            *final(self) == old(self).settled(then),
            old(self).wf() && (then matches AfterLoad::FirstOrRevert {
                previous_page,
                previous_index,
            } ==> previous_page >= 1) ==> final(self).wf(),
    {
        let last: usize = self.messages.len().saturating_sub(1);
        match then {
            AfterLoad::Stay => {},
            AfterLoad::SelectFirst => {
                self.selected_index = 0;
            },
            AfterLoad::SelectLast => {
                self.selected_index = last;
            },
            AfterLoad::SelectLastThenReload => {
                self.selected_index = last;
            },
            AfterLoad::FirstOrRevert { previous_page, previous_index } => {
                if self.messages.len() == 0 {
                    self.page = previous_page;
                } else {
                    self.selected_index = 0;
                }
            },
            AfterLoad::SelectAt(index) => {
                if self.messages.len() == 0 {
                    self.selected_index = 0;
                } else if index >= self.messages.len() {
                    self.selected_index = last;
                } else {
                    self.selected_index = index;
                }
            },
            AfterLoad::SelectNewest => {
                if self.messages.len() > 0 {
                    self.selected_index = 0;
                    self.page = 1;
                }
            },
        }
    }

    /// Tells whether `then` asks for one more load of the freshly loaded
    /// page.
    fn wants_reload(&self, then: AfterLoad) -> (again: bool)
        ensures
            again == self.repeats(then),
    {
        match then {
            AfterLoad::SelectLastThenReload => true,
            AfterLoad::FirstOrRevert { previous_page, previous_index } => self.messages.len() == 0,
            _ => false,
        }
    }

    /// Applies the selection rule of `then` to a freshly loaded page, and
    /// asks for one more load where the rule says so.
    pub fn after_load(&mut self, then: AfterLoad) -> (step: NavStep)
        ensures
            old(self).followed(*final(self), step, then),
            old(self).wf() && (then matches AfterLoad::FirstOrRevert {
                previous_page,
                previous_index,
            } ==> previous_page >= 1) ==> final(self).wf(),
    {
        let again: bool = self.wants_reload(then);
        self.settle(then);
        if again {
            let next: AfterLoad = match then {
                AfterLoad::FirstOrRevert { previous_page, previous_index } => AfterLoad::SelectAt(
                    previous_index,
                ),
                _ => AfterLoad::Stay,
            };
            let here: Fallback = self.get_place();
            self.ask(next, here)
        } else {
            NavStep::Done
        }
    }

    /// Starts a load of the current page, with `then` to follow and
    /// `fallback` to return to if the load fails. Without a topic there is
    /// nothing to load, and `then` is applied at once.
    pub fn begin_load(&mut self, then: AfterLoad, fallback: Fallback) -> (step: NavStep)
        ensures
            old(self).began(*final(self), step, then, fallback),
            old(self).wf() && (then matches AfterLoad::FirstOrRevert {
                previous_page,
                previous_index,
            } ==> previous_page >= 1) ==> final(self).wf(),
    {
        if self.current_topic.is_some() {
            self.ask(then, fallback)
        } else {
            self.settle(then);
            NavStep::Done
        }
    }

    /// Takes in the answer of the store to the last [`NavStep::Load`] and
    /// does what was left to do. After a failed load the list keeps its
    /// rows and stands again where it stood before the operation.
    pub fn resume(&mut self, then: AfterLoad, fallback: Fallback, reply: LoadReply) -> (step:
        NavStep)
        ensures
            old(self).resumed(*final(self), step, then, fallback, reply),
            old(self).wf() && rule_is_sound(then, fallback) ==> final(self).wf(),
    {
        match reply {
            LoadReply::Failed => {
                self.page = fallback.page;
                let len: usize = self.messages.len();
                self.selected_index = if len == 0 {
                    0
                } else if fallback.selected_index >= len {
                    len - 1
                } else {
                    fallback.selected_index
                };
                NavStep::Done
            },
            LoadReply::Rows { page, all } => {
                let ghost page_rows = page@;
                let ghost all_rows = all@;
                self.load_messages(page, all);
                let ghost mid = *self;
                let step = self.after_load(then);
                assert(old(self).loaded(mid, page_rows, all_rows));
                step
            },
        }
    }

    /// `self` with the delete confirmation withdrawn, as every navigation
    /// starts.
    pub open spec fn unconfirmed(self) -> MessageListState {
        MessageListState { delete_confirmation: false, ..self }
    }

    /// What a step up gives: a move within the page, or, from the first row
    /// of a later page, a load of the page before, whose last row is then
    /// selected.
    pub open spec fn moved_up_paging(self, post: MessageListState, step: NavStep) -> bool {
        if self.selected_index > 0 {
            post == (MessageListState {
                selected_index: (self.selected_index - 1) as usize,
                ..self.unconfirmed()
            }) && step is Done
        } else if self.page > 1 {
            (MessageListState { page: (self.page - 1) as usize, ..self.unconfirmed() }).began(
                post,
                step,
                AfterLoad::SelectLast,
                self.place(),
            )
        } else {
            post == self.unconfirmed() && step is Done
        }
    }

    /// What a step down gives: a move within the page, or, from the last
    /// row of a page that is not the last, a load of the next page, whose
    /// first row is then selected.
    pub open spec fn moved_down_paging(self, post: MessageListState, step: NavStep) -> bool {
        if self.selected_index < self.last_index() {
            post == (MessageListState {
                selected_index: (self.selected_index + 1) as usize,
                ..self.unconfirmed()
            }) && step is Done
        } else if self.has_next_page() {
            (MessageListState { page: (self.page + 1) as usize, ..self.unconfirmed() }).began(
                post,
                step,
                AfterLoad::FirstOrRevert {
                    previous_page: self.page,
                    previous_index: self.selected_index,
                },
                self.place(),
            )
        } else {
            post == self.unconfirmed() && step is Done
        }
    }

    /// What Page Up gives: from a later page, a load of the page before,
    /// with the selection on its first row.
    pub open spec fn paged_up(self, post: MessageListState, step: NavStep) -> bool {
        if self.page > 1 {
            (MessageListState {
                page: (self.page - 1) as usize,
                selected_index: 0,
                ..self.unconfirmed()
            }).began(post, step, AfterLoad::Stay, self.place())
        } else {
            post == self.unconfirmed() && step is Done
        }
    }

    /// What Page Down gives: from a page that is not the last, a load of the
    /// next page, whose first row is then selected.
    pub open spec fn paged_down(self, post: MessageListState, step: NavStep) -> bool {
        if self.has_next_page() {
            (MessageListState { page: (self.page + 1) as usize, ..self.unconfirmed() }).began(
                post,
                step,
                AfterLoad::SelectFirst,
                self.place(),
            )
        } else {
            post == self.unconfirmed() && step is Done
        }
    }

    /// What Home gives: a load of the first page, whose first row is then
    /// selected.
    pub open spec fn moved_to_top(self, post: MessageListState, step: NavStep) -> bool {
        (MessageListState { page: 1, ..self.unconfirmed() }).began(
            post,
            step,
            AfterLoad::SelectFirst,
            self.place(),
        )
    }

    /// What End gives: a load of the last page, whose last row is then
    /// selected.
    pub open spec fn moved_to_bottom(self, post: MessageListState, step: NavStep) -> bool {
        (MessageListState {
            page: last_page_of(self.total_count as int, self.per_page as int) as usize,
            ..self.unconfirmed()
        }).began(post, step, AfterLoad::SelectLast, self.place())
    }

    /// Tells whether there are rows after the current page.
    pub fn more_pages(&self) -> (more: bool)
        ensures
            more == self.has_next_page(),
    {
        let page: u128 = self.page as u128;
        let per: u128 = self.per_page as u128;
        assert(page * per <= 0xFFFF_FFFF_FFFF_FFFF * 0xFFFF_FFFF_FFFF_FFFF) by (nonlinear_arith)
            requires
                page <= 0xFFFF_FFFF_FFFF_FFFF,
                per <= 0xFFFF_FFFF_FFFF_FFFF,
        ;
        page * per < self.total_count as u128 && self.page < usize::MAX
    }

    /// The number of the last page.
    pub fn last_page(&self) -> (page: usize)
        ensures
            page as int == last_page_of(self.total_count as int, self.per_page as int),
            page >= 1,
    {
        if self.total_count == 0 || self.per_page == 0 {
            1
        } else {
            let full: usize = (self.total_count - 1) / self.per_page;
            assert(full <= self.total_count - 1) by (nonlinear_arith)
                requires
                    full == (self.total_count - 1) / (self.per_page as int),
                    self.per_page >= 1,
                    self.total_count >= 1,
            ;
            full + 1
        }
    }

    /// One row up; from the first row of a later page, onto the page before.
    pub fn move_up_with_pagination(&mut self) -> (step: NavStep)
        ensures
            old(self).moved_up_paging(*final(self), step),
            old(self).wf() ==> final(self).wf(),
    {
        self.delete_confirmation = false;
        let here: Fallback = self.get_place();
        if self.selected_index > 0 {
            self.selected_index = self.selected_index - 1;
            NavStep::Done
        } else if self.page > 1 {
            self.page = self.page - 1;
            self.begin_load(AfterLoad::SelectLast, here)
        } else {
            NavStep::Done
        }
    }

    /// One row down; from the last row of a page that is not the last, onto
    /// the next page.
    pub fn move_down_with_pagination(&mut self) -> (step: NavStep)
        ensures
            old(self).moved_down_paging(*final(self), step),
            old(self).wf() ==> final(self).wf(),
    {
        self.delete_confirmation = false;
        if self.selected_index < self.messages.len().saturating_sub(1) {
            self.selected_index = self.selected_index + 1;
            NavStep::Done
        } else if self.more_pages() {
            let here: Fallback = self.get_place();
            self.page = self.page + 1;
            self.begin_load(
                AfterLoad::FirstOrRevert {
                    previous_page: here.page,
                    previous_index: here.selected_index,
                },
                here,
            )
        } else {
            NavStep::Done
        }
    }

    /// One page up.
    pub fn page_up(&mut self) -> (step: NavStep)
        ensures
            old(self).paged_up(*final(self), step),
            old(self).wf() ==> final(self).wf(),
    {
        self.delete_confirmation = false;
        if self.page > 1 {
            let here: Fallback = self.get_place();
            self.page = self.page - 1;
            self.selected_index = 0;
            self.begin_load(AfterLoad::Stay, here)
        } else {
            NavStep::Done
        }
    }

    /// One page down.
    pub fn page_down(&mut self) -> (step: NavStep)
        ensures
            old(self).paged_down(*final(self), step),
            old(self).wf() ==> final(self).wf(),
    {
        self.delete_confirmation = false;
        if self.more_pages() {
            let here: Fallback = self.get_place();
            self.page = self.page + 1;
            self.begin_load(AfterLoad::SelectFirst, here)
        } else {
            NavStep::Done
        }
    }

    /// To the first row of the first page.
    pub fn move_to_top(&mut self) -> (step: NavStep)
        ensures
            old(self).moved_to_top(*final(self), step),
            old(self).wf() ==> final(self).wf(),
    {
        self.delete_confirmation = false;
        let here: Fallback = self.get_place();
        self.page = 1;
        self.begin_load(AfterLoad::SelectFirst, here)
    }

    /// To the last row of the last page.
    pub fn move_to_bottom(&mut self) -> (step: NavStep)
        ensures
            old(self).moved_to_bottom(*final(self), step),
            old(self).wf() ==> final(self).wf(),
    {
        self.delete_confirmation = false;
        let here: Fallback = self.get_place();
        self.page = self.last_page();
        self.begin_load(AfterLoad::SelectLast, here)
    }

    /// Tells whether the periodic refresh may reload the list: only while
    /// the list is empty or the newest row of the first page is selected.
    pub fn should_auto_update_messages(&self) -> (reload: bool)
        ensures
            reload == self.follows_newest(),
    {
        self.messages.len() == 0 || (self.page == 1 && self.selected_index == 0)
    }

    /// `mid` is `self` with the query set from the input fields, which all
    /// hold usable text: the payload pattern as typed, the time fields read
    /// as UTC, the error gone, the first row of the first page selected.
    pub open spec fn filters_set(self, mid: MessageListState) -> bool {
        &&& mid == (MessageListState {
            filter: mid.filter,
            filter_error: None,
            page: 1,
            selected_index: 0,
            ..self
        })
        &&& mid.filter == (FilterCriteria {
            payload_regex: mid.filter.payload_regex,
            start_time: bound_as_utc(self.time_from_input@),
            end_time: bound_as_utc(self.time_to_input@),
            ..self.filter
        })
        &&& crate::text::text_view(mid.filter.payload_regex) == if self.payload_filter_input@.len()
            == 0 {
            None
        } else {
            Some(self.payload_filter_input@)
        }
    }

    /// The payload field holds text that does not compile.
    pub open spec fn payload_is_broken(self) -> bool {
        self.payload_filter_input@.len() > 0 && !is_valid_regex(self.payload_filter_input@)
    }

    /// What applying the input fields gives. A payload pattern that does not
    /// compile is reported and changes nothing else. Otherwise the query is
    /// set from the fields and the first page is loaded.
    pub open spec fn filters_applied(self, post: MessageListState, step: NavStep) -> bool {
        if self.payload_is_broken() {
            &&& post == (MessageListState { filter_error: post.filter_error, ..self })
            &&& post.filter_error is Some
            &&& post.filter_error->0@ == regex_complaint(self.payload_filter_input@)
            &&& step is Done
        } else {
            exists|mid: MessageListState| #[trigger]
                self.filters_set(mid) && mid.began(post, step, AfterLoad::Stay, self.place())
        }
    }

    /// The bound that a time field yields when it is read as UTC.
    fn utc_reading(text: &str) -> (instant: Option<Timestamp>)
        ensures
            instant == bound_as_utc(text@),
    {
        if text.unicode_len() == 0 {
            return None;
        }
        match parse_datetime(text, "%Y-%m-%d %H:%M:%S") {
            Some(parts) => Some(utc_instant(parts)),
            None => None,
        }
    }

    /// Applies the input fields to the query and loads the first page, or
    /// reports a payload pattern that does not compile.
    pub fn apply_filters(&mut self) -> (step: NavStep)
        ensures
            old(self).filters_applied(*final(self), step),
            old(self).wf() ==> final(self).wf(),
    {
        if self.payload_filter_input.as_str().unicode_len() > 0 {
            match regex_error(self.payload_filter_input.as_str()) {
                Some(reason) => {
                    let mut complaint: String = String::from_str("Regex error: ");
                    complaint.append(reason.as_str());
                    self.filter_error = Some(complaint);
                    return NavStep::Done;
                },
                None => {
                    self.filter.payload_regex = Some(self.payload_filter_input.clone());
                },
            }
        } else {
            self.filter.payload_regex = None;
        }
        let here: Fallback = self.get_place();
        self.filter_error = None;
        self.filter.start_time = Self::utc_reading(self.time_from_input.as_str());
        self.filter.end_time = Self::utc_reading(self.time_to_input.as_str());
        self.page = 1;
        self.selected_index = 0;
        let ghost mid = *self;
        let step = self.begin_load(AfterLoad::Stay, here);
        assert(old(self).filters_set(mid) && mid.began(
            *self,
            step,
            AfterLoad::Stay,
            old(self).place(),
        ));
        step
    }

    /// Binds the slots to the first rules of `rules`.
    pub fn set_quick_filter_rules(&mut self, rules: &Vec<QuickFilter>)
        ensures
            final(self).quick_filter_rules@ == rules@.take(
                if rules@.len() <= QUICK_FILTER_SLOTS {
                    rules@.len() as int
                } else {
                    QUICK_FILTER_SLOTS as int
                },
            ),
            *final(self) == (MessageListState {
                quick_filter_rules: final(self).quick_filter_rules,
                ..*old(self)
            }),
            old(self).wf() ==> final(self).wf(),
    {
        self.quick_filter_rules = leading_rules(rules);
    }
}

/// Steps within one page never take the selection off the page.
pub proof fn lemma_steps_stay_on_page(selected: int, len: int, downs: Seq<bool>)
    requires
        0 <= selected < len,
    ensures
        0 <= after_steps(selected, len, downs) < len,
    decreases downs.len(),
{
    if downs.len() > 0 {
        lemma_steps_stay_on_page(selected, len, downs.drop_last());
    }
}

/// Crossing the top of a page: a step up from the first row of a later
/// page, once its rows are in, shows the page before with its last row
/// selected.
pub proof fn lemma_crossing_top_lands_on_last_row(
    pre: MessageListState,
    mid: MessageListState,
    asked: NavStep,
    page: Vec<Message>,
    all: Vec<Message>,
    post: MessageListState,
    done: NavStep,
)
    requires
        pre.current_topic is Some,
        pre.selected_index == 0,
        pre.page > 1,
        pre.moved_up_paging(mid, asked),
        mid.resumed(
            post,
            done,
            AfterLoad::SelectLast,
            pre.place(),
            LoadReply::Rows { page, all },
        ),
    ensures
        asked matches NavStep::Load { request, then, fallback } && then == AfterLoad::SelectLast
            && fallback == pre.place() && mid.queries(request),
        done is Done,
        post.page == pre.page - 1,
        post.messages@ == shown(pre.quick_filter_rules@, pre.quick_filter_states@, page@),
        post.selected_index == post.last_index(),
{
    assert(post.messages.len() == post.messages@.len());
}

/// Crossing the bottom of a page: a step down from the last row of a page
/// that is not the last, once rows of the next page are in, shows that page
/// with its first row selected.
pub proof fn lemma_crossing_bottom_lands_on_first_row(
    pre: MessageListState,
    mid: MessageListState,
    asked: NavStep,
    page: Vec<Message>,
    all: Vec<Message>,
    post: MessageListState,
    done: NavStep,
)
    requires
        pre.current_topic is Some,
        pre.selected_index >= pre.last_index(),
        pre.has_next_page(),
        pre.moved_down_paging(mid, asked),
        mid.resumed(
            post,
            done,
            AfterLoad::FirstOrRevert {
                previous_page: pre.page,
                previous_index: pre.selected_index,
            },
            pre.place(),
            LoadReply::Rows { page, all },
        ),
        shown(pre.quick_filter_rules@, pre.quick_filter_states@, page@).len() > 0,
    ensures
        asked matches NavStep::Load { request, then, fallback } && then == (
        AfterLoad::FirstOrRevert {
            previous_page: pre.page,
            previous_index: pre.selected_index,
        }) && fallback == pre.place() && mid.queries(request),
        done is Done,
        post.page == pre.page + 1,
        post.messages@ == shown(pre.quick_filter_rules@, pre.quick_filter_states@, page@),
        post.selected_index == 0,
{
}

/// A next page that comes back empty is given up: the list returns to the
/// page it showed and asks for that page again.
pub proof fn lemma_empty_next_page_reverts(
    pre: MessageListState,
    mid: MessageListState,
    asked: NavStep,
    page: Vec<Message>,
    all: Vec<Message>,
    post: MessageListState,
    again: NavStep,
)
    requires
        pre.current_topic is Some,
        pre.selected_index >= pre.last_index(),
        pre.has_next_page(),
        pre.moved_down_paging(mid, asked),
        mid.resumed(
            post,
            again,
            AfterLoad::FirstOrRevert {
                previous_page: pre.page,
                previous_index: pre.selected_index,
            },
            pre.place(),
            LoadReply::Rows { page, all },
        ),
        shown(pre.quick_filter_rules@, pre.quick_filter_states@, page@).len() == 0,
    ensures
        post.page == pre.page,
        again matches NavStep::Load { request, then, fallback } && then == AfterLoad::SelectAt(
            pre.selected_index,
        ) && fallback.page == pre.page && post.queries(request),
{
}

/// A load that fails leaves the list where it stood before the key: on the
/// same page, with the same rows, total and selection.
pub proof fn lemma_failed_load_changes_no_place(
    pre: MessageListState,
    mid: MessageListState,
    asked: NavStep,
    post: MessageListState,
    done: NavStep,
)
    requires
        pre.wf(),
        pre.moved_up_paging(mid, asked) || pre.moved_down_paging(mid, asked) || pre.paged_up(
            mid,
            asked,
        ) || pre.paged_down(mid, asked) || pre.moved_to_top(mid, asked) || pre.moved_to_bottom(
            mid,
            asked,
        ),
        asked matches NavStep::Load { request, then, fallback } && mid.resumed(
            post,
            done,
            then,
            fallback,
            LoadReply::Failed,
        ),
    ensures
        done is Done,
        post.page == pre.page,
        post.selected_index == pre.selected_index,
        post.messages == pre.messages,
        post.total_count == pre.total_count,
{
}

/// After a load the total is the number of rows of the whole topic that the
/// quick filters let through, and every row of the page is one that they let
/// through.
pub proof fn lemma_total_counts_shown_rows(
    pre: MessageListState,
    post: MessageListState,
    page: Seq<Message>,
    all: Seq<Message>,
)
    requires
        pre.loaded(post, page, all),
    ensures
        post.total_count == all.filter(
            |m: Message|
                crate::quick_filter::shows(pre.quick_filter_rules@, pre.quick_filter_states@, m),
        ).len(),
        forall|i: int|
            0 <= i < post.messages@.len() ==> crate::quick_filter::shows(
                pre.quick_filter_rules@,
                pre.quick_filter_states@,
                #[trigger] post.messages@[i],
            ),
        post.messages@.len() <= page.len(),
        post.total_count <= all.len(),
{
    let keep = |m: Message|
        crate::quick_filter::shows(pre.quick_filter_rules@, pre.quick_filter_states@, m);
    page.lemma_filter_len(keep);
    all.lemma_filter_len(keep);
    assert forall|i: int| 0 <= i < post.messages@.len() implies keep(
        #[trigger] post.messages@[i],
    ) by {
        page.lemma_filter_pred(keep, i);
    }
}

/// Two lists with the same rules and switches count the same total from the
/// same rows: switching filters off and on again, in any order, restores the
/// total over an unchanged set of messages.
pub proof fn lemma_same_switches_same_total(
    first: MessageListState,
    first_loaded: MessageListState,
    second: MessageListState,
    second_loaded: MessageListState,
    page: Seq<Message>,
    all: Seq<Message>,
)
    requires
        first.quick_filter_rules@ == second.quick_filter_rules@,
        first.quick_filter_states@ == second.quick_filter_states@,
        first.loaded(first_loaded, page, all),
        second.loaded(second_loaded, page, all),
    ensures
        first_loaded.total_count == second_loaded.total_count,
        first_loaded.messages@ == second_loaded.messages@,
{
}

/// Switching every quick filter off and on again restores the total: over
/// the same rows, a list whose five filters were each switched twice shows
/// and counts what it did before.
pub proof fn lemma_off_and_on_again_restores_total(
    before: MessageListState,
    before_loaded: MessageListState,
    after: MessageListState,
    after_loaded: MessageListState,
    page: Seq<Message>,
    all: Seq<Message>,
)
    requires
        before.quick_filter_states@.len() == QUICK_FILTER_SLOTS,
        after.quick_filter_rules@ == before.quick_filter_rules@,
        after.quick_filter_states@ == crate::quick_filter::each_toggled(
            crate::quick_filter::each_toggled(before.quick_filter_states@),
        ),
        before.loaded(before_loaded, page, all),
        after.loaded(after_loaded, page, all),
    ensures
        after.quick_filter_states@ == before.quick_filter_states@,
        after_loaded.total_count == before_loaded.total_count,
        after_loaded.messages@ == before_loaded.messages@,
{
    let switches = before.quick_filter_states@;
    crate::quick_filter::lemma_toggling_each_flips_all(switches);
    crate::quick_filter::lemma_toggling_each_flips_all(crate::quick_filter::all_flipped(switches));
    crate::quick_filter::lemma_flip_twice(switches);
}

/// A payload pattern that does not compile is reported and never reaches
/// the query, neither when the fields are applied nor when a later load
/// reads them afresh.
pub proof fn lemma_broken_pattern_never_applied(
    pre: MessageListState,
    post: MessageListState,
    step: NavStep,
    later: MessageListState,
)
    requires
        pre.payload_is_broken(),
        pre.filters_applied(post, step),
        post.filter_read(later),
    ensures
        post.filter.payload_regex == pre.filter.payload_regex,
        post.filter_error is Some,
        step is Done,
        later.filter.payload_regex == pre.filter.payload_regex,
        later.filter_error is Some,
{
}

/// A payload pattern that compiles clears the error and becomes the pattern
/// of the query.
pub proof fn lemma_valid_pattern_applied(
    pre: MessageListState,
    post: MessageListState,
    step: NavStep,
)
    requires
        pre.payload_filter_input@.len() > 0,
        is_valid_regex(pre.payload_filter_input@),
        pre.filters_applied(post, step),
    ensures
        post.filter_error is None,
        crate::text::text_view(post.filter.payload_regex) == Some(pre.payload_filter_input@),
        post.page == 1,
        post.selected_index == 0,
{
}

/// A turn of the wheel on a value of the years 1970 to 9999 leaves the
/// field with the nineteen characters of the staged value.
pub proof fn lemma_turned_wheel_fills_the_field(
    pre: MessageListState,
    post: MessageListState,
    delta: int,
)
    requires
        pre.wheel_ready(),
        1970 <= pre.temp_datetime->0.year <= 9999,
        pre.wheel_turned(post, delta),
    ensures
        post.active_time_text().len() == 19,
        1970 <= post.temp_datetime->0.year <= 9999,
{
    crate::datetime::lemma_written_fills_the_field(
        pre.temp_datetime->0,
        pre.time_edit_position,
        delta,
    );
}

/// In the digit wheel, a delta that would take the active group out of its
/// bounds leaves the staged value, and so every group, as it was.
pub proof fn lemma_wheel_drops_out_of_bounds_delta(
    pre: MessageListState,
    post: MessageListState,
    delta: int,
)
    requires
        pre.wheel_ready(),
        pre.wheel_turned(post, delta),
        !pre.time_edit_position.admits(pre.temp_datetime->0.group(pre.time_edit_position) + delta),
    ensures
        post.temp_datetime == pre.temp_datetime,
        forall|position: TimeEditPosition|
            post.temp_datetime->0.group(position) == pre.temp_datetime->0.group(position),
{
}


} // verus!
