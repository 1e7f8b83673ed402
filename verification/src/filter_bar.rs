//! The filter bar above the topic list: four text fields, of which the two
//! time fields can be edited with the digit wheel.

use crate::datetime::{
    clock_text, is_clock_text, local_clock, parse_datetime, staged_on_entry, text_on_entry,
    write_datetime, written, DateTimeParts, TimeEditPosition,
};
use crate::events::{wheel_delta, AppEvent};
use vstd::prelude::*;
use vstd::string::*;

verus! {

/// The fields of the filter bar.
#[derive(Clone, Copy, Debug, PartialEq, Eq, Structural)]
pub enum FilterField {
    Topic,
    Payload,
    StartTime,
    EndTime,
}

/// The state of the filter bar.
#[derive(Debug)]
pub struct FilterState {
    pub topic_filter: String,
    pub payload_filter: String,
    pub start_time: String,
    pub end_time: String,
    pub active_field: FilterField,
    pub is_editing: bool,
    pub time_edit_mode: bool,
    pub time_edit_position: TimeEditPosition,
    /// The value staged by the digit wheel.
    pub temp_datetime: Option<DateTimeParts>,
}

/// The filter bar itself; drawing it is left to the caller.
pub struct FilterBar;

impl FilterField {
    /// The field is one of the two time fields.
    pub open spec fn is_time_field(self) -> bool {
        self == FilterField::StartTime || self == FilterField::EndTime
    }

    /// The field to the right, wrapping around.
    pub open spec fn following(self) -> FilterField {
        match self {
            FilterField::Topic => FilterField::Payload,
            FilterField::Payload => FilterField::StartTime,
            FilterField::StartTime => FilterField::EndTime,
            FilterField::EndTime => FilterField::Topic,
        }
    }

    /// The field to the left, wrapping around.
    pub open spec fn preceding(self) -> FilterField {
        match self {
            FilterField::Topic => FilterField::EndTime,
            FilterField::Payload => FilterField::Topic,
            FilterField::StartTime => FilterField::Payload,
            FilterField::EndTime => FilterField::StartTime,
        }
    }

    /// Tells whether the field is one of the two time fields.
    pub fn on_time_field(self) -> (r: bool)
        ensures
            r == self.is_time_field(),
    {
        match self {
            FilterField::StartTime => true,
            FilterField::EndTime => true,
            _ => false,
        }
    }
}

impl FilterState {
    /// The text of the active field.
    pub open spec fn active_text(self) -> Seq<char> {
        match self.active_field {
            FilterField::Topic => self.topic_filter@,
            FilterField::Payload => self.payload_filter@,
            FilterField::StartTime => self.start_time@,
            FilterField::EndTime => self.end_time@,
        }
    }

    /// `post` is `self` but for the text of the active field.
    pub open spec fn edited_into(self, post: FilterState) -> bool {
        match self.active_field {
            FilterField::Topic => post == (FilterState { topic_filter: post.topic_filter, ..self }),
            FilterField::Payload => post == (FilterState {
                payload_filter: post.payload_filter,
                ..self
            }),
            FilterField::StartTime => post == (FilterState { start_time: post.start_time, ..self }),
            FilterField::EndTime => post == (FilterState { end_time: post.end_time, ..self }),
        }
    }

    /// `post` is `self` but for the digit-wheel fields and the text of the
    /// active time field.
    pub open spec fn wheel_turned_into(self, post: FilterState) -> bool {
        match self.active_field {
            FilterField::StartTime => post == (FilterState {
                start_time: post.start_time,
                time_edit_mode: post.time_edit_mode,
                time_edit_position: post.time_edit_position,
                temp_datetime: post.temp_datetime,
                ..self
            }),
            FilterField::EndTime => post == (FilterState {
                end_time: post.end_time,
                time_edit_mode: post.time_edit_mode,
                time_edit_position: post.time_edit_position,
                temp_datetime: post.temp_datetime,
                ..self
            }),
            _ => post == self,
        }
    }

    /// How entering the digit wheel changes the bar, given what the local
    /// clock shows (`now`, if it can be had): on a time field the wheel is
    /// on and stands on the day. A field whose text reads as a date stages
    /// that date and keeps its text. Any other field, empty or not, stages
    /// what the clock shows and shows it in place of its text.
    pub open spec fn entered_with(self, post: FilterState, now: Option<DateTimeParts>) -> bool {
        if !self.active_field.is_time_field() {
            post == self
        } else {
            &&& self.wheel_turned_into(post)
            &&& post.time_edit_mode
            &&& post.time_edit_position == TimeEditPosition::Day
            &&& post.temp_datetime == staged_on_entry(self.active_text(), now)
            &&& post.active_text() == text_on_entry(self.active_text(), now)
        }
    }

    /// The bar entered the digit wheel under some reading of the local
    /// clock.
    pub open spec fn entered(self, post: FilterState) -> bool {
        exists|now: Option<DateTimeParts>|
            (now is Some ==> now->0.is_valid()) && #[trigger] self.entered_with(post, now)
    }

    /// The digit wheel is on, on a time field, with a staged value.
    pub open spec fn wheel_ready(self) -> bool {
        &&& self.time_edit_mode
        &&& self.active_field.is_time_field()
        &&& self.temp_datetime is Some
        &&& self.temp_datetime->0.is_valid()
    }

    /// A bar as it is before anything was typed.
    pub open spec fn is_fresh(self) -> bool {
        &&& self.topic_filter@.len() == 0
        &&& self.payload_filter@.len() == 0
        &&& self.active_field == FilterField::Topic
        &&& !self.is_editing
        &&& !self.time_edit_mode
        &&& self.time_edit_position == TimeEditPosition::Year
        &&& self.temp_datetime is None
    }

    /// A fresh bar whose time fields hold the given texts.
    pub fn with_time_window(start_time: String, end_time: String) -> (bar: FilterState)
        ensures
            bar.is_fresh(),
            bar.start_time == start_time,
            bar.end_time == end_time,
    {
        FilterState {
            topic_filter: String::new(),
            payload_filter: String::new(),
            start_time,
            end_time,
            active_field: FilterField::Topic,
            is_editing: false,
            time_edit_mode: false,
            time_edit_position: TimeEditPosition::Year,
            temp_datetime: None,
        }
    }

    /// The text of the active field.
    pub fn get_active_field_value(&self) -> (text: &str)
        ensures
            text@ == self.active_text(),
    {
        match self.active_field {
            FilterField::Topic => self.topic_filter.as_str(),
            FilterField::Payload => self.payload_filter.as_str(),
            FilterField::StartTime => self.start_time.as_str(),
            FilterField::EndTime => self.end_time.as_str(),
        }
    }

    /// The active field, to be written to. What is written becomes the
    /// text of that field, and nothing else changes.
    pub fn get_active_field_value_mut(&mut self) -> (text: &mut String)
        ensures
            match old(self).active_field {
                FilterField::Topic => *text == old(self).topic_filter && *final(self) == (
                FilterState { topic_filter: *final(text), ..*old(self) }),
                FilterField::Payload => *text == old(self).payload_filter && *final(self) == (
                FilterState { payload_filter: *final(text), ..*old(self) }),
                FilterField::StartTime => *text == old(self).start_time && *final(self) == (
                FilterState { start_time: *final(text), ..*old(self) }),
                FilterField::EndTime => *text == old(self).end_time && *final(self) == (
                FilterState { end_time: *final(text), ..*old(self) }),
            },
    {
        match self.active_field {
            FilterField::Topic => &mut self.topic_filter,
            FilterField::Payload => &mut self.payload_filter,
            FilterField::StartTime => &mut self.start_time,
            FilterField::EndTime => &mut self.end_time,
        }
    }

    /// Puts `text` in the active field.
    pub fn set_active_field_value(&mut self, text: String)
        ensures
            old(self).edited_into(*final(self)),
            final(self).active_text() == text@,
    {
        match self.active_field {
            FilterField::Topic => {
                self.topic_filter = text;
            },
            FilterField::Payload => {
                self.payload_filter = text;
            },
            FilterField::StartTime => {
                self.start_time = text;
            },
            FilterField::EndTime => {
                self.end_time = text;
            },
        }
    }

    /// Appends `c` to the active field.
    pub fn push_char(&mut self, c: char)
        ensures
            old(self).edited_into(*final(self)),
            final(self).active_text() == old(self).active_text().push(c),
    {
        let mut text: String = String::from_str(self.get_active_field_value());
        crate::text::push_char(&mut text, c);
        self.set_active_field_value(text);
    }

    /// Removes the last character of the active field, if it has one.
    pub fn pop_char(&mut self)
        ensures
            old(self).edited_into(*final(self)),
            final(self).active_text() == if old(self).active_text().len() > 0 {
                old(self).active_text().drop_last()
            } else {
                old(self).active_text()
            },
    {
        let len: usize = self.get_active_field_value().unicode_len();
        if len > 0 {
            let text: String = String::from_str(
                self.get_active_field_value().substring_char(0, len - 1),
            );
            self.set_active_field_value(text);
        } else {
            let text: String = String::from_str(self.get_active_field_value());
            self.set_active_field_value(text);
        }
    }

    /// Makes the field to the right the active one.
    pub fn next_field(&mut self)
        ensures
            *final(self) == (FilterState {
                active_field: old(self).active_field.following(),
                ..*old(self)
            }),
    {
        self.active_field = match self.active_field {
            FilterField::Topic => FilterField::Payload,
            FilterField::Payload => FilterField::StartTime,
            FilterField::StartTime => FilterField::EndTime,
            FilterField::EndTime => FilterField::Topic,
        };
    }

    /// Makes the field to the left the active one.
    pub fn previous_field(&mut self)
        ensures
            *final(self) == (FilterState {
                active_field: old(self).active_field.preceding(),
                ..*old(self)
            }),
    {
        self.active_field = match self.active_field {
            FilterField::Topic => FilterField::EndTime,
            FilterField::Payload => FilterField::Topic,
            FilterField::StartTime => FilterField::Payload,
            FilterField::EndTime => FilterField::StartTime,
        };
    }

    /// Empties the four fields.
    pub fn clear_all(&mut self)
        ensures
            final(self).topic_filter@.len() == 0,
            final(self).payload_filter@.len() == 0,
            final(self).start_time@.len() == 0,
            final(self).end_time@.len() == 0,
            *final(self) == (FilterState {
                topic_filter: final(self).topic_filter,
                payload_filter: final(self).payload_filter,
                start_time: final(self).start_time,
                end_time: final(self).end_time,
                ..*old(self)
            }),
    {
        self.topic_filter = String::new();
        self.payload_filter = String::new();
        self.start_time = String::new();
        self.end_time = String::new();
    }

    /// Tells whether any field holds text.
    pub fn has_filters(&self) -> (any: bool)
        ensures
            any == (self.topic_filter@.len() > 0 || self.payload_filter@.len() > 0
                || self.start_time@.len() > 0 || self.end_time@.len() > 0),
    {
        self.topic_filter.as_str().unicode_len() > 0 || self.payload_filter.as_str().unicode_len()
            > 0 || self.start_time.as_str().unicode_len() > 0
            || self.end_time.as_str().unicode_len() > 0
    }

    /// Puts `text` in the active time field.
    fn replace_active_time(&mut self, text: String)
        requires
            old(self).active_field.is_time_field(),
        ensures
            old(self).wheel_turned_into(*final(self)),
            final(self).active_text() == text@,
            final(self).time_edit_mode == old(self).time_edit_mode,
            final(self).time_edit_position == old(self).time_edit_position,
            final(self).temp_datetime == old(self).temp_datetime,
    {
        match self.active_field {
            FilterField::StartTime => {
                self.start_time = text;
            },
            _ => {
                self.end_time = text;
            },
        }
    }

    /// Enters the digit wheel, given what the local clock shows.
    pub fn enter_time_edit_mode_at(&mut self, now: Option<DateTimeParts>)
        requires
            now is Some ==> now->0.is_valid(),
        ensures
            old(self).entered_with(*final(self), now),
    {
        if !self.active_field.on_time_field() {
            return ;
        }
        self.time_edit_mode = true;
        self.time_edit_position = TimeEditPosition::Day;
        let seed: Option<DateTimeParts> = if self.get_active_field_value().unicode_len() == 0 {
            None
        } else {
            parse_datetime(self.get_active_field_value(), "%Y-%m-%d %H:%M:%S")
        };
        match seed {
            Some(parts) => {
                self.temp_datetime = Some(parts);
            },
            None => {
                self.temp_datetime = now;
                if let Some(shown) = now {
                    let text: String = write_datetime(shown);
                    self.replace_active_time(text);
                }
            },
        }
    }

    /// Enters the digit wheel: see [`Self::entered_with`], for what the
    /// local clock shows at the time of the call.
    pub fn enter_time_edit_mode(&mut self)
        ensures
            old(self).entered(*final(self)),
    {
        let now: Option<DateTimeParts> = local_clock(0);
        self.enter_time_edit_mode_at(now);
        assert(old(self).entered_with(*self, now));
    }

    /// Switches the digit wheel of a time field on or off. Switching it on
    /// is entering it; switching it off drops the staged value and leaves
    /// the text.
    pub fn toggle_time_edit_mode(&mut self)
        ensures
            !old(self).active_field.is_time_field() ==> *final(self) == *old(self),
            old(self).active_field.is_time_field() && old(self).time_edit_mode ==> *final(self)
                == (FilterState { time_edit_mode: false, temp_datetime: None, ..*old(self) }),
            old(self).active_field.is_time_field() && !old(self).time_edit_mode ==> old(
                self,
            ).entered(*final(self)),
    {
        if self.active_field.on_time_field() {
            if self.time_edit_mode {
                self.time_edit_mode = false;
                self.temp_datetime = None;
            } else {
                self.enter_time_edit_mode();
            }
        }
    }

    /// Leaves the digit wheel and drops the staged value; the text stays.
    pub fn leave_time_edit_mode(&mut self)
        ensures
            *final(self) == (FilterState {
                time_edit_mode: false,
                temp_datetime: None,
                ..*old(self)
            }),
    {
        self.time_edit_mode = false;
        self.temp_datetime = None;
    }

    /// Moves the digit wheel one group to the right, if it is on.
    pub fn next_time_position(&mut self)
        ensures
            *final(self) == (FilterState {
                time_edit_position: if old(self).time_edit_mode {
                    old(self).time_edit_position.following()
                } else {
                    old(self).time_edit_position
                },
                ..*old(self)
            }),
    {
        if self.time_edit_mode {
            self.time_edit_position = self.time_edit_position.next();
        }
    }

    /// Moves the digit wheel one group to the left, if it is on.
    pub fn prev_time_position(&mut self)
        ensures
            *final(self) == (FilterState {
                time_edit_position: if old(self).time_edit_mode {
                    old(self).time_edit_position.preceding()
                } else {
                    old(self).time_edit_position
                },
                ..*old(self)
            }),
    {
        if self.time_edit_mode {
            self.time_edit_position = self.time_edit_position.prev();
        }
    }

    /// What turning the wheel by `delta` gives.
    pub open spec fn wheel_turned(self, post: FilterState, delta: int) -> bool {
        if self.wheel_ready() {
            &&& self.wheel_turned_into(post)
            &&& post.time_edit_mode
            &&& post.time_edit_position == self.time_edit_position
            &&& post.temp_datetime == Some(
                self.temp_datetime->0.adjusted(self.time_edit_position, delta),
            )
            &&& post.active_text() == written(post.temp_datetime->0)
        } else {
            post == self
        }
    }

    /// Turns the active group of the digit wheel by `delta` and writes the
    /// staged value back into the field. A delta that would take the group
    /// out of its bounds, or the day out of its month, changes no group.
    pub fn adjust_time_value(&mut self, delta: i32)
        ensures
            old(self).wheel_turned(*final(self), delta as int),
    {
        if !self.time_edit_mode || !self.active_field.on_time_field() {
            return ;
        }
        if let Some(staged) = self.temp_datetime {
            if staged.check_valid() {
                let moved: DateTimeParts = staged.adjust(self.time_edit_position, delta);
                self.temp_datetime = Some(moved);
                let text: String = write_datetime(moved);
                self.replace_active_time(text);
            }
        }
    }

    /// `self` with the digit wheel off and nothing staged; the text stays.
    pub open spec fn wheel_left(self) -> FilterState {
        FilterState { time_edit_mode: false, temp_datetime: None, ..self }
    }

    /// The key makes the caller apply the filters: Space, Enter and Tab do
    /// so when they end the digit wheel.
    pub open spec fn key_applies(self, event: AppEvent) -> bool {
        self.time_edit_mode && (event is Space || event is Enter || event is Tab)
    }

    /// What a key gives while the bar is edited. With the digit wheel on,
    /// Left and Right change the group, the arrows and page keys turn it,
    /// Space, Enter and Escape leave the wheel, Tab leaves it and moves on.
    /// On a time field without the wheel, the keys of the wheel enter it
    /// first. On a text field, characters are appended, Backspace removes
    /// the last one, and Tab, Left and Right change the field.
    pub open spec fn key_handled(self, event: AppEvent, post: FilterState) -> bool {
        if self.time_edit_mode {
            match event {
                AppEvent::NavigateLeft => post == (FilterState {
                    time_edit_position: self.time_edit_position.preceding(),
                    ..self
                }),
                AppEvent::NavigateRight => post == (FilterState {
                    time_edit_position: self.time_edit_position.following(),
                    ..self
                }),
                AppEvent::Space => if self.active_field.is_time_field() {
                    post == self.wheel_left()
                } else {
                    post == self
                },
                AppEvent::Enter => post == self.wheel_left(),
                AppEvent::Escape => post == self.wheel_left(),
                AppEvent::Tab => post == (FilterState {
                    active_field: self.active_field.following(),
                    ..self.wheel_left()
                }),
                _ => match wheel_delta(event) {
                    Some(delta) => self.wheel_turned(post, delta),
                    None => post == self,
                },
            }
        } else if self.active_field.is_time_field() {
            match event {
                AppEvent::NavigateLeft => exists|entered: FilterState|
                    #[trigger] self.entered(entered) && post == (FilterState {
                        time_edit_position: entered.time_edit_position.preceding(),
                        ..entered
                    }),
                AppEvent::NavigateRight => exists|entered: FilterState|
                    #[trigger] self.entered(entered) && post == (FilterState {
                        time_edit_position: entered.time_edit_position.following(),
                        ..entered
                    }),
                AppEvent::Tab => post == (FilterState {
                    active_field: self.active_field.following(),
                    ..self
                }),
                AppEvent::Space => self.entered(post),
                _ => match wheel_delta(event) {
                    Some(delta) => exists|entered: FilterState|
                        #[trigger] self.entered(entered) && entered.wheel_turned(post, delta),
                    None => post == self,
                },
            }
        } else {
            match event {
                AppEvent::Space => self.edited_into(post) && post.active_text()
                    == self.active_text().push(' '),
                AppEvent::Input(c) => if c != '\0' {
                    self.edited_into(post) && post.active_text() == self.active_text().push(c)
                } else {
                    post == self
                },
                AppEvent::Backspace => self.edited_into(post) && post.active_text() == if self.active_text().len()
                    > 0 {
                    self.active_text().drop_last()
                } else {
                    self.active_text()
                },
                AppEvent::Tab => post == (FilterState {
                    active_field: self.active_field.following(),
                    ..self
                }),
                AppEvent::NavigateRight => post == (FilterState {
                    active_field: self.active_field.following(),
                    ..self
                }),
                AppEvent::NavigateLeft => post == (FilterState {
                    active_field: self.active_field.preceding(),
                    ..self
                }),
                _ => post == self,
            }
        }
    }

    /// The delta by which a key turns the digit wheel.
    fn delta_of(event: &AppEvent) -> (delta: Option<i32>)
        ensures
            match delta {
                Some(d) => wheel_delta(*event) == Some(d as int),
                None => wheel_delta(*event) is None,
            },
    {
        match event {
            AppEvent::NavigateUp => Some(-1),
            AppEvent::NavigateDown => Some(1),
            AppEvent::PageUp => Some(-10),
            AppEvent::PageDown => Some(10),
            _ => None,
        }
    }

    /// Handles a key while the bar is edited, and tells whether the
    /// filters are to be applied.
    pub fn handle_key(&mut self, event: &AppEvent) -> (apply: bool)
        ensures
            old(self).key_handled(*event, *final(self)),
            apply == old(self).key_applies(*event),
    {
        if self.time_edit_mode {
            match event {
                AppEvent::NavigateLeft => {
                    self.prev_time_position();
                    false
                },
                AppEvent::NavigateRight => {
                    self.next_time_position();
                    false
                },
                AppEvent::Space => {
                    self.toggle_time_edit_mode();
                    true
                },
                AppEvent::Enter => {
                    self.leave_time_edit_mode();
                    true
                },
                AppEvent::Escape => {
                    self.leave_time_edit_mode();
                    false
                },
                AppEvent::Tab => {
                    self.leave_time_edit_mode();
                    self.next_field();
                    true
                },
                _ => {
                    match Self::delta_of(event) {
                        Some(delta) => {
                            self.adjust_time_value(delta);
                        },
                        None => {},
                    }
                    false
                },
            }
        } else if self.active_field.on_time_field() {
            match event {
                AppEvent::NavigateLeft => {
                    self.enter_time_edit_mode();
                    let ghost entered = *self;
                    self.prev_time_position();
                    assert(old(self).entered(entered) && *self == (FilterState {
                        time_edit_position: entered.time_edit_position.preceding(),
                        ..entered
                    })) by {
                        let now = choose|now: Option<DateTimeParts>|
                            (now is Some ==> now->0.is_valid()) && #[trigger] old(
                                self,
                            ).entered_with(entered, now);
                        assert(entered.time_edit_mode);
                    }
                },
                AppEvent::NavigateRight => {
                    self.enter_time_edit_mode();
                    let ghost entered = *self;
                    self.next_time_position();
                    assert(old(self).entered(entered) && *self == (FilterState {
                        time_edit_position: entered.time_edit_position.following(),
                        ..entered
                    })) by {
                        let now = choose|now: Option<DateTimeParts>|
                            (now is Some ==> now->0.is_valid()) && #[trigger] old(
                                self,
                            ).entered_with(entered, now);
                        assert(entered.time_edit_mode);
                    }
                },
                AppEvent::Tab => {
                    self.next_field();
                },
                AppEvent::Space => {
                    self.toggle_time_edit_mode();
                },
                _ => {
                    match Self::delta_of(event) {
                        Some(delta) => {
                            self.enter_time_edit_mode();
                            let ghost entered = *self;
                            self.adjust_time_value(delta);
                            assert(old(self).entered(entered) && entered.wheel_turned(
                                *self,
                                delta as int,
                            ));
                        },
                        None => {},
                    }
                },
            }
            false
        } else {
            match event {
                AppEvent::Space => {
                    self.push_char(' ');
                },
                AppEvent::Input(c) => {
                    if *c != '\0' {
                        self.push_char(*c);
                    }
                },
                AppEvent::Backspace => {
                    self.pop_char();
                },
                AppEvent::Tab => {
                    self.next_field();
                },
                AppEvent::NavigateRight => {
                    self.next_field();
                },
                AppEvent::NavigateLeft => {
                    self.previous_field();
                },
                _ => {},
            }
            false
        }
    }

    /// A copy for the comparison with the next frame.
    pub fn snapshot(&self) -> (copy: FilterState)
        ensures
            copy == *self,
    {
        FilterState {
            topic_filter: self.topic_filter.clone(),
            payload_filter: self.payload_filter.clone(),
            start_time: self.start_time.clone(),
            end_time: self.end_time.clone(),
            active_field: self.active_field,
            is_editing: self.is_editing,
            time_edit_mode: self.time_edit_mode,
            time_edit_position: self.time_edit_position,
            temp_datetime: self.temp_datetime,
        }
    }

    /// Where the terminal cursor belongs for a bar drawn from row `row`
    /// on, as column and row, if it is to be shown at all.
    pub open spec fn cursor_cell(self, row: int) -> Option<(int, int)> {
        if !self.is_editing {
            None
        } else {
            let cell: (int, int) = match self.active_field {
                FilterField::Topic => (17, row + 2),
                FilterField::Payload => (19, row + 3),
                FilterField::StartTime => (13, row + 4),
                FilterField::EndTime => (38, row + 4),
            };
            let offset: int = if self.time_edit_mode && self.active_field.is_time_field() {
                self.time_edit_position.column()
            } else if self.active_text().len() < 19 {
                self.active_text().len() as int
            } else {
                19
            };
            Some((cell.0 + offset, cell.1))
        }
    }
}

impl Default for FilterState {
    /// A fresh bar whose time fields span from a day ago to a day ahead on
    /// the local clock.
    fn default() -> (bar: Self)
        ensures
            bar.is_fresh(),
            is_clock_text(bar.start_time@),
            is_clock_text(bar.end_time@),
    {
        FilterState::with_time_window(clock_text(-1), clock_text(1))
    }
}

impl FilterBar {
    /// Where the terminal cursor belongs for a bar drawn from row `row` on.
    pub fn get_cursor_position(state: &FilterState, row: u16) -> (cell: Option<(u16, u16)>)
        requires
            row <= u16::MAX - 4,
        ensures
            match (cell, state.cursor_cell(row as int)) {
                (Some(c), Some(m)) => c.0 == m.0 && c.1 == m.1,
                (None, None) => true,
                _ => false,
            },
    {
        if !state.is_editing {
            return None;
        }
        let cell: (u16, u16) = match state.active_field {
            FilterField::Topic => (17, row + 2),
            FilterField::Payload => (19, row + 3),
            FilterField::StartTime => (13, row + 4),
            FilterField::EndTime => (38, row + 4),
        };
        let offset: u16 = if state.time_edit_mode && state.active_field.on_time_field() {
            state.time_edit_position.cursor_column()
        } else {
            let len: usize = state.get_active_field_value().unicode_len();
            if len < 19 {
                len as u16
            } else {
                19
            }
        };
        Some((cell.0 + offset, cell.1))
    }

    /// Tells whether the bar has to be drawn again: always without an
    /// earlier frame, else when a text, the active field or the editing flag
    /// differs from that frame.
    pub fn needs_redraw(state: &FilterState, previous: Option<&FilterState>) -> (redraw: bool)
        ensures
            redraw == match previous {
                None => true,
                Some(p) => !shows_same(*p, *state),
            },
    {
        match previous {
            None => true,
            Some(p) => !states_equal_filter(p, state),
        }
    }
}

/// Two frames of the bar show the same: the four texts, the active field
/// and the editing flag agree. The digit wheel is not compared.
pub open spec fn shows_same(a: FilterState, b: FilterState) -> bool {
    &&& a.topic_filter@ == b.topic_filter@
    &&& a.payload_filter@ == b.payload_filter@
    &&& a.start_time@ == b.start_time@
    &&& a.end_time@ == b.end_time@
    &&& a.active_field == b.active_field
    &&& a.is_editing == b.is_editing
}

/// Tells whether two frames of the bar show the same.
pub fn states_equal_filter(prev: &FilterState, current: &FilterState) -> (same: bool)
    ensures
        same == shows_same(*prev, *current),
{
    prev.topic_filter == current.topic_filter && prev.payload_filter == current.payload_filter
        && prev.start_time == current.start_time && prev.end_time == current.end_time
        && prev.active_field == current.active_field && prev.is_editing == current.is_editing
}

/// A frame shows the same as itself, and showing the same is symmetric and
/// transitive: the comparison is an equivalence on frames.
pub proof fn lemma_shows_same_is_equivalence(a: FilterState, b: FilterState, c: FilterState)
    ensures
        shows_same(a, a),
        shows_same(a, b) ==> shows_same(b, a),
        shows_same(a, b) && shows_same(b, c) ==> shows_same(a, c),
{
}

} // verus!
