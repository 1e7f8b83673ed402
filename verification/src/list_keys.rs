//! The keys of the message list.
//!
//! A key either moves within the list, edits one of the three input fields,
//! or turns the digit wheel of a time field. Every edit of a field applies
//! the fields to the query at once and asks for the first page.

use crate::datetime::{DateTimeParts, Timestamp};
use crate::events::{wheel_delta, AppEvent};
use crate::message_list::{
    rule_is_sound, step_is_sound, AfterLoad, Fallback, FocusTarget, LoadReply, MessageListState,
    NavStep,
};
use crate::models::Message;
use vstd::prelude::*;

verus! {

/// The one message that a confirmed Delete removes.
#[derive(Debug)]
pub enum DeleteTarget {
    /// The message with this id.
    ById(i64),
    /// The message of this topic stored at this instant, for a row that the
    /// store gave no id.
    ByTopicAndTime { topic: String, timestamp: Timestamp },
}

/// What a key asks of the caller.
#[derive(Debug)]
pub enum ListOutcome {
    /// The list dealt with the key. `step` tells whether rows are needed,
    /// `redraw` whether the whole screen is to be drawn again.
    Handled { step: NavStep, redraw: bool },
    /// Show the selected message in full.
    OpenDetail,
    /// Return to the topic list.
    Back,
    /// Fetch the clipboard and hand the text to
    /// [`MessageListState::paste`].
    ReadClipboard,
    /// Delete this message from the store and hand the answer to
    /// [`MessageListState::deleted`].
    Delete(DeleteTarget),
}

/// An edit of an input field, as far as the query depends on it.
pub enum FieldEdit {
    /// Turn the active group of the digit wheel by a delta.
    Turn(int),
    /// Enter the digit wheel, then turn the active group by a delta.
    EnterAndTurn(int),
    /// Leave the digit wheel and keep the text.
    Leave,
    /// Leave the digit wheel and restore the text.
    Cancel,
    /// Leave the digit wheel and move the focus on.
    TabOut,
    /// Type a character at the cursor.
    Type(char),
    /// Remove the character before the cursor.
    Erase,
    /// Insert a text at the cursor.
    Paste(Seq<char>),
}

/// Nothing is left to do and nothing is to be drawn again.
pub open spec fn quiet() -> ListOutcome {
    ListOutcome::Handled { step: NavStep::Done, redraw: false }
}

/// The way to name `row` to the store: by its id if it has one, else by
/// topic and time.
pub open spec fn target_of(row: Message) -> DeleteTarget {
    match row.id {
        Some(id) => DeleteTarget::ById(id),
        None => DeleteTarget::ByTopicAndTime { topic: row.topic, timestamp: row.timestamp },
    }
}

impl MessageListState {
    /// A row is selected.
    pub open spec fn has_selection(self) -> bool {
        self.selected_index < self.messages@.len()
    }

    /// `self` after Tab outside the digit wheel: the focus moves on, and
    /// editing stops when it reaches the list.
    pub open spec fn tabbed(self) -> MessageListState {
        let next = MessageListState { focus: self.focus.following(), ..self };
        if next.focus == FocusTarget::MessageList {
            next.stopped()
        } else {
            next
        }
    }

    /// What starting to edit gives: on the payload filter the cursor goes
    /// behind the text; on a time field the digit wheel is entered; on the
    /// list nothing happens.
    pub open spec fn editing_started(self, post: MessageListState) -> bool {
        match self.focus {
            FocusTarget::MessageList => post == self,
            FocusTarget::PayloadFilter => post == (MessageListState {
                is_editing: true,
                cursor_position: self.payload_filter_input@.len() as usize,
                ..self
            }),
            _ => (MessageListState { is_editing: true, ..self }).entered(post),
        }
    }

    /// `mid` is `self` after the edit.
    pub open spec fn edited(self, mid: MessageListState, edit: FieldEdit) -> bool {
        match edit {
            FieldEdit::Turn(delta) => self.wheel_turned(mid, delta),
            FieldEdit::EnterAndTurn(delta) => exists|entered: MessageListState|
                #[trigger] self.entered(entered) && entered.wheel_turned(mid, delta),
            FieldEdit::Leave => mid == self.wheel_left(),
            FieldEdit::Cancel => self.wheel_cancelled(mid),
            FieldEdit::TabOut => mid == self.wheel_left().tabbed(),
            FieldEdit::Type(c) => self.char_inserted(mid, c),
            FieldEdit::Erase => self.char_deleted(mid),
            FieldEdit::Paste(text) => self.text_inserted(mid, text),
        }
    }

    /// `post` and `step` are what the edit gives once the fields have been
    /// applied to the query.
    pub open spec fn edited_and_applied(
        self,
        post: MessageListState,
        step: NavStep,
        edit: FieldEdit,
    ) -> bool {
        exists|mid: MessageListState| #[trigger]
            self.edited(mid, edit) && mid.filters_applied(post, step)
    }

    /// What a key gives while a field is edited. With the digit wheel on,
    /// Left and Right change the group, the arrows and page keys turn it,
    /// Space and Enter leave the wheel, Escape gives it up, Tab leaves it
    /// and moves on. On a time field without the wheel, the same keys enter
    /// the wheel first. Elsewhere the keys edit the text or move through the
    /// list. Any key but Delete withdraws a delete confirmation.
    pub open spec fn filter_key_handled(
        self,
        event: AppEvent,
        post: MessageListState,
        outcome: ListOutcome,
    ) -> bool {
        let base = if event is Delete {
            self
        } else {
            self.unconfirmed()
        };
        if base.time_edit_mode {
            base.wheel_key_handled(event, post, outcome)
        } else if base.focus.is_time_field() && (wheel_delta(event) is Some
            || event is NavigateLeft || event is NavigateRight || event is Space) {
            base.time_field_key_handled(event, post, outcome)
        } else {
            base.text_key_handled(event, post, outcome)
        }
    }

    /// What a key gives with the digit wheel on.
    pub open spec fn wheel_key_handled(
        self,
        event: AppEvent,
        post: MessageListState,
        outcome: ListOutcome,
    ) -> bool {
        match event {
            AppEvent::NavigateLeft => post == (MessageListState {
                time_edit_position: self.time_edit_position.preceding(),
                ..self
            }) && outcome == (ListOutcome::Handled { step: NavStep::Done, redraw: true }),
            AppEvent::NavigateRight => post == (MessageListState {
                time_edit_position: self.time_edit_position.following(),
                ..self
            }) && outcome == (ListOutcome::Handled { step: NavStep::Done, redraw: true }),
            AppEvent::Space => outcome matches ListOutcome::Handled { step, redraw } && !redraw
                && self.edited_and_applied(post, step, FieldEdit::Leave),
            AppEvent::Enter => outcome matches ListOutcome::Handled { step, redraw } && !redraw
                && self.edited_and_applied(post, step, FieldEdit::Leave),
            AppEvent::Escape => outcome matches ListOutcome::Handled { step, redraw } && redraw
                && self.edited_and_applied(post, step, FieldEdit::Cancel),
            AppEvent::Tab => outcome matches ListOutcome::Handled { step, redraw } && !redraw
                && self.edited_and_applied(post, step, FieldEdit::TabOut),
            _ => match wheel_delta(event) {
                Some(delta) => outcome matches ListOutcome::Handled { step, redraw } && redraw
                    && self.edited_and_applied(post, step, FieldEdit::Turn(delta)),
                None => post == self && outcome == quiet(),
            },
        }
    }

    /// What a key of the digit wheel gives on a time field whose wheel is
    /// off: the wheel is entered first.
    pub open spec fn time_field_key_handled(
        self,
        event: AppEvent,
        post: MessageListState,
        outcome: ListOutcome,
    ) -> bool {
        match event {
            AppEvent::NavigateLeft => outcome == (ListOutcome::Handled {
                step: NavStep::Done,
                redraw: true,
            }) && exists|entered: MessageListState|
                #[trigger] self.entered(entered) && post == (MessageListState {
                    time_edit_position: entered.time_edit_position.preceding(),
                    ..entered
                }),
            AppEvent::NavigateRight => outcome == (ListOutcome::Handled {
                step: NavStep::Done,
                redraw: true,
            }) && exists|entered: MessageListState|
                #[trigger] self.entered(entered) && post == (MessageListState {
                    time_edit_position: entered.time_edit_position.following(),
                    ..entered
                }),
            AppEvent::Space => self.entered(post) && outcome == quiet(),
            _ => match wheel_delta(event) {
                Some(delta) => outcome matches ListOutcome::Handled { step, redraw } && redraw
                    && self.edited_and_applied(post, step, FieldEdit::EnterAndTurn(delta)),
                None => post == self && outcome == quiet(),
            },
        }
    }

    /// What a key gives while text is edited and the digit wheel is not in
    /// play.
    pub open spec fn text_key_handled(
        self,
        event: AppEvent,
        post: MessageListState,
        outcome: ListOutcome,
    ) -> bool {
        match event {
            AppEvent::Tab => post == self.tabbed() && outcome == quiet(),
            AppEvent::Input(c) => if c != '\0' {
                outcome matches ListOutcome::Handled { step, redraw } && !redraw
                    && self.edited_and_applied(post, step, FieldEdit::Type(c))
            } else {
                post == self && outcome == quiet()
            },
            AppEvent::Backspace => outcome matches ListOutcome::Handled { step, redraw }
                && !redraw && self.edited_and_applied(post, step, FieldEdit::Erase),
            AppEvent::NavigateLeft => post == (MessageListState {
                cursor_position: if self.cursor_position > 0 {
                    (self.cursor_position - 1) as usize
                } else {
                    0
                },
                ..self
            }) && outcome == quiet(),
            AppEvent::NavigateRight => post == (MessageListState {
                cursor_position: if self.cursor_position < self.active_text().len() {
                    (self.cursor_position + 1) as usize
                } else {
                    self.cursor_position
                },
                ..self
            }) && outcome == quiet(),
            AppEvent::Home => post == (MessageListState { cursor_position: 0, ..self })
                && outcome == quiet(),
            AppEvent::End => post == (MessageListState {
                cursor_position: self.active_text().len() as usize,
                ..self
            }) && outcome == quiet(),
            AppEvent::Paste(text) => post == self && outcome is ReadClipboard,
            AppEvent::Enter => post == self.stopped() && outcome == quiet(),
            AppEvent::Escape => post == self.stopped() && outcome == quiet(),
            AppEvent::NavigateUp => outcome matches ListOutcome::Handled { step, redraw }
                && self.moved_up_paging(post, step) && redraw == (post.page != self.page),
            AppEvent::NavigateDown => outcome matches ListOutcome::Handled { step, redraw }
                && self.moved_down_paging(post, step) && redraw == (post.page != self.page),
            AppEvent::PageUp => outcome matches ListOutcome::Handled { step, redraw } && redraw
                && self.paged_up(post, step),
            AppEvent::PageDown => outcome matches ListOutcome::Handled { step, redraw } && redraw
                && self.paged_down(post, step),
            _ => post == self && outcome == quiet(),
        }
    }

    /// What End gives on the list: a load of the last page, whose last row
    /// is then selected, and one more load after that.
    pub open spec fn ended(self, post: MessageListState, step: NavStep) -> bool {
        (MessageListState {
            page: crate::message_list::last_page_of(
                self.total_count as int,
                self.per_page as int,
            ) as usize,
            ..self.unconfirmed()
        }).began(post, step, AfterLoad::SelectLastThenReload, self.place())
    }

    /// What Delete gives on the list. Without a selected row nothing
    /// happens. The first press asks for confirmation and deletes nothing;
    /// the press after it names the selected row for deletion.
    pub open spec fn delete_pressed(self, post: MessageListState, outcome: ListOutcome) -> bool {
        if !self.has_selection() {
            post == self && outcome == quiet()
        } else if self.delete_confirmation {
            post == self && outcome == ListOutcome::Delete(
                target_of(self.messages@[self.selected_index as int]),
            )
        } else {
            post == (MessageListState { delete_confirmation: true, ..self }) && outcome == (
            ListOutcome::Handled { step: NavStep::Done, redraw: true })
        }
    }

    /// What a key gives on the message list. While a field is edited the
    /// key goes to the field. Otherwise Tab moves the focus and starts
    /// editing, Enter edits a field or opens the selected row, the arrows
    /// and page keys move through the rows, Left goes back, Right opens the
    /// selected row, Home and End jump, and Delete asks twice. Any key but
    /// Delete withdraws a delete confirmation.
    pub open spec fn list_key_handled(
        self,
        event: AppEvent,
        post: MessageListState,
        outcome: ListOutcome,
    ) -> bool {
        let base = if event is Delete {
            self
        } else {
            self.unconfirmed()
        };
        if self.is_editing {
            self.filter_key_handled(event, post, outcome)
        } else {
            match event {
                AppEvent::Tab => outcome == quiet() && if base.focus.following()
                    == FocusTarget::MessageList {
                    post == base.tabbed()
                } else {
                    (MessageListState { focus: base.focus.following(), ..base }).editing_started(
                        post,
                    )
                },
                AppEvent::Enter => if base.focus == FocusTarget::MessageList {
                    post == base && outcome == if base.has_selection() {
                        ListOutcome::OpenDetail
                    } else {
                        quiet()
                    }
                } else {
                    base.editing_started(post) && outcome == quiet()
                },
                AppEvent::NavigateUp => outcome matches ListOutcome::Handled { step, redraw }
                    && base.moved_up_paging(post, step) && redraw == (post.page != base.page),
                AppEvent::NavigateDown => outcome matches ListOutcome::Handled { step, redraw }
                    && base.moved_down_paging(post, step) && redraw == (post.page != base.page),
                AppEvent::PageUp => outcome matches ListOutcome::Handled { step, redraw }
                    && redraw && base.paged_up(post, step),
                AppEvent::PageDown => outcome matches ListOutcome::Handled { step, redraw }
                    && redraw && base.paged_down(post, step),
                AppEvent::NavigateLeft => post == base && outcome is Back,
                AppEvent::NavigateRight => post == base && outcome == if base.focus
                    == FocusTarget::MessageList && base.has_selection() {
                    ListOutcome::OpenDetail
                } else {
                    quiet()
                },
                AppEvent::Home => if base.focus == FocusTarget::MessageList {
                    outcome matches ListOutcome::Handled { step, redraw } && !redraw
                        && base.moved_to_top(post, step)
                } else {
                    post == base && outcome == quiet()
                },
                AppEvent::End => if base.focus == FocusTarget::MessageList {
                    outcome matches ListOutcome::Handled { step, redraw } && !redraw
                        && base.ended(post, step)
                } else {
                    post == base && outcome == quiet()
                },
                AppEvent::Delete => self.delete_pressed(post, outcome),
                _ => post == base && outcome == quiet(),
            }
        }
    }

    /// What the answer of the store to a deletion gives: the confirmation
    /// is withdrawn, and after a deletion that took place the page is loaded
    /// again.
    pub open spec fn deletion_answered(
        self,
        post: MessageListState,
        step: NavStep,
        success: Option<bool>,
    ) -> bool {
        if success == Some(true) {
            self.unconfirmed().began(post, step, AfterLoad::Stay, self.place())
        } else {
            post == self.unconfirmed() && step is Done
        }
    }

    /// What the answer of the clipboard gives: a text is inserted at the
    /// cursor and the fields are applied; without a text nothing happens.
    pub open spec fn paste_answered(
        self,
        post: MessageListState,
        step: NavStep,
        text: Option<String>,
    ) -> bool {
        match text {
            Some(t) => self.edited_and_applied(post, step, FieldEdit::Paste(t@)),
            None => post == self && step is Done,
        }
    }

    /// Turns the digit wheel and applies the fields.
    fn turn_and_apply(&mut self, delta: i32) -> (step: NavStep)
        ensures
            old(self).edited_and_applied(*final(self), step, FieldEdit::Turn(delta as int)),
            old(self).wf() ==> final(self).wf(),
    {
        self.adjust_time_value(delta);
        let ghost mid = *self;
        let step = self.apply_filters();
        assert(old(self).edited(mid, FieldEdit::Turn(delta as int)) && mid.filters_applied(
            *self,
            step,
        ));
        step
    }

    /// Enters the digit wheel, turns it and applies the fields.
    fn enter_turn_apply(&mut self, delta: i32) -> (step: NavStep)
        ensures
            old(self).edited_and_applied(*final(self), step, FieldEdit::EnterAndTurn(delta as int)),
            old(self).wf() && old(self).is_editing ==> final(self).wf(),
    {
        self.enter_time_edit_mode();
        let ghost entered = *self;
        self.adjust_time_value(delta);
        let ghost mid = *self;
        let step = self.apply_filters();
        assert(old(self).entered(entered) && entered.wheel_turned(mid, delta as int));
        assert(old(self).edited(mid, FieldEdit::EnterAndTurn(delta as int))
            && mid.filters_applied(*self, step));
        step
    }

    /// Leaves the digit wheel and applies the fields.
    fn leave_and_apply(&mut self) -> (step: NavStep)
        ensures
            old(self).edited_and_applied(*final(self), step, FieldEdit::Leave),
            old(self).wf() ==> final(self).wf(),
    {
        self.leave_time_edit_mode();
        let ghost mid = *self;
        let step = self.apply_filters();
        assert(old(self).edited(mid, FieldEdit::Leave) && mid.filters_applied(*self, step));
        step
    }

    /// Gives up the digit wheel and applies the restored fields.
    fn cancel_and_apply(&mut self) -> (step: NavStep)
        ensures
            old(self).edited_and_applied(*final(self), step, FieldEdit::Cancel),
            old(self).wf() ==> final(self).wf(),
    {
        self.cancel_time_edit();
        let ghost mid = *self;
        let step = self.apply_filters();
        assert(old(self).edited(mid, FieldEdit::Cancel) && mid.filters_applied(*self, step));
        step
    }

    /// Moves the focus on, and stops editing when it reaches the list.
    fn tab(&mut self)
        ensures
            *final(self) == old(self).tabbed(),
            old(self).wf() && !old(self).time_edit_mode ==> final(self).wf(),
    {
        self.next_focus();
        if self.focus == FocusTarget::MessageList {
            self.stop_editing();
        }
    }

    /// Leaves the digit wheel, moves the focus on and applies the fields.
    fn tab_out_and_apply(&mut self) -> (step: NavStep)
        ensures
            old(self).edited_and_applied(*final(self), step, FieldEdit::TabOut),
            old(self).wf() ==> final(self).wf(),
    {
        self.leave_time_edit_mode();
        self.tab();
        let ghost mid = *self;
        let step = self.apply_filters();
        assert(old(self).edited(mid, FieldEdit::TabOut) && mid.filters_applied(*self, step));
        step
    }

    /// Types a character and applies the fields.
    fn type_and_apply(&mut self, c: char) -> (step: NavStep)
        ensures
            old(self).edited_and_applied(*final(self), step, FieldEdit::Type(c)),
            old(self).wf() ==> final(self).wf(),
    {
        self.insert_char_at_cursor(c);
        let ghost mid = *self;
        let step = self.apply_filters();
        assert(old(self).edited(mid, FieldEdit::Type(c)) && mid.filters_applied(*self, step));
        step
    }

    /// Removes a character and applies the fields.
    fn erase_and_apply(&mut self) -> (step: NavStep)
        ensures
            old(self).edited_and_applied(*final(self), step, FieldEdit::Erase),
            old(self).wf() ==> final(self).wf(),
    {
        self.delete_char_at_cursor();
        let ghost mid = *self;
        let step = self.apply_filters();
        assert(old(self).edited(mid, FieldEdit::Erase) && mid.filters_applied(*self, step));
        step
    }

    /// Takes in the answer of the clipboard.
    pub fn paste(&mut self, text: Option<String>) -> (step: NavStep)
        ensures
            old(self).paste_answered(*final(self), step, text),
            old(self).wf() ==> final(self).wf(),
    {
        match text {
            Some(t) => {
                self.insert_string_at_cursor(t.as_str());
                let ghost mid = *self;
                let step = self.apply_filters();
                assert(old(self).edited(mid, FieldEdit::Paste(t@)) && mid.filters_applied(
                    *self,
                    step,
                ));
                step
            },
            None => NavStep::Done,
        }
    }

    /// Takes in the answer of the store to a deletion: whether a message
    /// was deleted, or nothing if the store failed.
    pub fn deleted(&mut self, success: Option<bool>) -> (step: NavStep)
        ensures
            old(self).deletion_answered(*final(self), step, success),
            old(self).wf() ==> final(self).wf(),
    {
        self.delete_confirmation = false;
        match success {
            Some(true) => {
                let here: Fallback = self.get_place();
                self.begin_load(AfterLoad::Stay, here)
            },
            _ => NavStep::Done,
        }
    }

    /// The delta by which a key turns the digit wheel.
    fn delta_of(event: &AppEvent) -> (delta: Option<i32>)
        ensures
            match delta {
                Some(d) => wheel_delta(*event) == Some(d as int),
                None => wheel_delta(*event) is None,
            },
    {
        match event {
            AppEvent::NavigateUp => Some(-1),
            AppEvent::NavigateDown => Some(1),
            AppEvent::PageUp => Some(-10),
            AppEvent::PageDown => Some(10),
            _ => None,
        }
    }

    /// Handles a key with the digit wheel on.
    fn handle_wheel_key(&mut self, event: &AppEvent) -> (outcome: ListOutcome)
        requires
            old(self).time_edit_mode,
        ensures
            old(self).wheel_key_handled(*event, *final(self), outcome),
            old(self).wf() ==> final(self).wf(),
    {
        match event {
            AppEvent::NavigateLeft => {
                self.prev_time_position();
                ListOutcome::Handled { step: NavStep::Done, redraw: true }
            },
            AppEvent::NavigateRight => {
                self.next_time_position();
                ListOutcome::Handled { step: NavStep::Done, redraw: true }
            },
            AppEvent::Space => ListOutcome::Handled { step: self.leave_and_apply(), redraw: false },
            AppEvent::Enter => ListOutcome::Handled { step: self.leave_and_apply(), redraw: false },
            AppEvent::Escape => ListOutcome::Handled {
                step: self.cancel_and_apply(),
                redraw: true,
            },
            AppEvent::Tab => ListOutcome::Handled {
                step: self.tab_out_and_apply(),
                redraw: false,
            },
            _ => match Self::delta_of(event) {
                Some(delta) => ListOutcome::Handled {
                    step: self.turn_and_apply(delta),
                    redraw: true,
                },
                None => ListOutcome::Handled { step: NavStep::Done, redraw: false },
            },
        }
    }

    /// Handles a key of the digit wheel on a time field whose wheel is off.
    fn handle_time_field_key(&mut self, event: &AppEvent) -> (outcome: ListOutcome)
        requires
            old(self).focus.is_time_field(),
            !old(self).time_edit_mode,
        ensures
            old(self).time_field_key_handled(*event, *final(self), outcome),
            old(self).wf() && old(self).is_editing ==> final(self).wf(),
    {
        match event {
            AppEvent::NavigateLeft => {
                self.enter_time_edit_mode();
                let ghost entered = *self;
                self.prev_time_position();
                assert(old(self).entered(entered) && *self == (MessageListState {
                    time_edit_position: entered.time_edit_position.preceding(),
                    ..entered
                })) by {
                    let now = choose|now: Option<DateTimeParts>|
                        (now is Some ==> now->0.is_valid()) && #[trigger] old(self).entered_with(
                            entered,
                            now,
                        );
                    assert(entered.time_edit_mode);
                }
                ListOutcome::Handled { step: NavStep::Done, redraw: true }
            },
            AppEvent::NavigateRight => {
                self.enter_time_edit_mode();
                let ghost entered = *self;
                self.next_time_position();
                assert(old(self).entered(entered) && *self == (MessageListState {
                    time_edit_position: entered.time_edit_position.following(),
                    ..entered
                })) by {
                    let now = choose|now: Option<DateTimeParts>|
                        (now is Some ==> now->0.is_valid()) && #[trigger] old(self).entered_with(
                            entered,
                            now,
                        );
                    assert(entered.time_edit_mode);
                }
                ListOutcome::Handled { step: NavStep::Done, redraw: true }
            },
            AppEvent::Space => {
                self.toggle_time_edit_mode();
                ListOutcome::Handled { step: NavStep::Done, redraw: false }
            },
            _ => match Self::delta_of(event) {
                Some(delta) => ListOutcome::Handled {
                    step: self.enter_turn_apply(delta),
                    redraw: true,
                },
                None => ListOutcome::Handled { step: NavStep::Done, redraw: false },
            },
        }
    }

    /// Handles a key while text is edited and the digit wheel is not in
    /// play.
    fn handle_text_key(&mut self, event: &AppEvent) -> (outcome: ListOutcome)
        requires
            !old(self).time_edit_mode,
        ensures
            old(self).text_key_handled(*event, *final(self), outcome),
            old(self).wf() ==> final(self).wf(),
    {
        match event {
            AppEvent::Tab => {
                self.tab();
                ListOutcome::Handled { step: NavStep::Done, redraw: false }
            },
            AppEvent::Input(c) => {
                if *c != '\0' {
                    ListOutcome::Handled { step: self.type_and_apply(*c), redraw: false }
                } else {
                    ListOutcome::Handled { step: NavStep::Done, redraw: false }
                }
            },
            AppEvent::Backspace => ListOutcome::Handled {
                step: self.erase_and_apply(),
                redraw: false,
            },
            AppEvent::NavigateLeft => {
                self.move_cursor_left();
                ListOutcome::Handled { step: NavStep::Done, redraw: false }
            },
            AppEvent::NavigateRight => {
                self.move_cursor_right();
                ListOutcome::Handled { step: NavStep::Done, redraw: false }
            },
            AppEvent::Home => {
                self.move_cursor_home();
                ListOutcome::Handled { step: NavStep::Done, redraw: false }
            },
            AppEvent::End => {
                self.move_cursor_end();
                ListOutcome::Handled { step: NavStep::Done, redraw: false }
            },
            AppEvent::Paste(text) => ListOutcome::ReadClipboard,
            AppEvent::Enter => {
                self.stop_editing();
                ListOutcome::Handled { step: NavStep::Done, redraw: false }
            },
            AppEvent::Escape => {
                self.stop_editing();
                ListOutcome::Handled { step: NavStep::Done, redraw: false }
            },
            AppEvent::NavigateUp => {
                let page: usize = self.page;
                let step = self.move_up_with_pagination();
                ListOutcome::Handled { step, redraw: self.page != page }
            },
            AppEvent::NavigateDown => {
                let page: usize = self.page;
                let step = self.move_down_with_pagination();
                ListOutcome::Handled { step, redraw: self.page != page }
            },
            AppEvent::PageUp => ListOutcome::Handled { step: self.page_up(), redraw: true },
            AppEvent::PageDown => ListOutcome::Handled { step: self.page_down(), redraw: true },
            _ => ListOutcome::Handled { step: NavStep::Done, redraw: false },
        }
    }

    /// Handles a key while a field is edited.
    pub fn handle_filter_key(&mut self, event: &AppEvent) -> (outcome: ListOutcome)
        ensures
            old(self).filter_key_handled(*event, *final(self), outcome),
            old(self).wf() && old(self).is_editing ==> final(self).wf(),
    {
        match event {
            AppEvent::Delete => {},
            _ => {
                self.delete_confirmation = false;
            },
        }
        if self.time_edit_mode {
            self.handle_wheel_key(event)
        } else if self.focus.on_time_field() && Self::is_wheel_key(event) {
            self.handle_time_field_key(event)
        } else {
            self.handle_text_key(event)
        }
    }

    /// Tells whether the key belongs to the digit wheel.
    fn is_wheel_key(event: &AppEvent) -> (yes: bool)
        ensures
            yes == (wheel_delta(*event) is Some || *event is NavigateLeft
                || *event is NavigateRight || *event is Space),
    {
        match event {
            AppEvent::NavigateUp => true,
            AppEvent::NavigateDown => true,
            AppEvent::PageUp => true,
            AppEvent::PageDown => true,
            AppEvent::NavigateLeft => true,
            AppEvent::NavigateRight => true,
            AppEvent::Space => true,
            _ => false,
        }
    }

    /// Handles Delete on the list.
    fn press_delete(&mut self) -> (outcome: ListOutcome)
        ensures
            old(self).delete_pressed(*final(self), outcome),
            old(self).wf() ==> final(self).wf(),
    {
        if self.selected_index >= self.messages.len() {
            return ListOutcome::Handled { step: NavStep::Done, redraw: false };
        }
        if self.delete_confirmation {
            let row: &Message = &self.messages[self.selected_index];
            let target: DeleteTarget = match row.id {
                Some(id) => DeleteTarget::ById(id),
                None => DeleteTarget::ByTopicAndTime {
                    topic: row.topic.clone(),
                    timestamp: row.timestamp,
                },
            };
            ListOutcome::Delete(target)
        } else {
            self.delete_confirmation = true;
            ListOutcome::Handled { step: NavStep::Done, redraw: true }
        }
    }

    /// Handles a key on the message list.
    pub fn handle_key(&mut self, event: &AppEvent) -> (outcome: ListOutcome)
        ensures
            old(self).list_key_handled(*event, *final(self), outcome),
            old(self).wf() ==> final(self).wf(),
    {
        if self.is_editing {
            return self.handle_filter_key(event);
        }
        match event {
            AppEvent::Delete => {
                return self.press_delete();
            },
            _ => {
                self.delete_confirmation = false;
            },
        }
        let on_list: bool = self.focus == FocusTarget::MessageList;
        let has_row: bool = self.selected_index < self.messages.len();
        match event {
            AppEvent::Tab => {
                self.next_focus();
                if self.focus == FocusTarget::MessageList {
                    self.stop_editing();
                } else {
                    self.start_editing();
                }
                ListOutcome::Handled { step: NavStep::Done, redraw: false }
            },
            AppEvent::Enter => {
                if on_list {
                    if has_row {
                        ListOutcome::OpenDetail
                    } else {
                        ListOutcome::Handled { step: NavStep::Done, redraw: false }
                    }
                } else {
                    self.start_editing();
                    ListOutcome::Handled { step: NavStep::Done, redraw: false }
                }
            },
            AppEvent::NavigateUp => {
                let page: usize = self.page;
                let step = self.move_up_with_pagination();
                ListOutcome::Handled { step, redraw: self.page != page }
            },
            AppEvent::NavigateDown => {
                let page: usize = self.page;
                let step = self.move_down_with_pagination();
                ListOutcome::Handled { step, redraw: self.page != page }
            },
            AppEvent::PageUp => ListOutcome::Handled { step: self.page_up(), redraw: true },
            AppEvent::PageDown => ListOutcome::Handled { step: self.page_down(), redraw: true },
            AppEvent::NavigateLeft => ListOutcome::Back,
            AppEvent::NavigateRight => {
                if on_list && has_row {
                    ListOutcome::OpenDetail
                } else {
                    ListOutcome::Handled { step: NavStep::Done, redraw: false }
                }
            },
            AppEvent::Home => {
                if on_list {
                    ListOutcome::Handled { step: self.move_to_top(), redraw: false }
                } else {
                    ListOutcome::Handled { step: NavStep::Done, redraw: false }
                }
            },
            AppEvent::End => {
                if on_list {
                    let here: Fallback = self.get_place();
                    self.page = self.last_page();
                    ListOutcome::Handled {
                        step: self.begin_load(AfterLoad::SelectLastThenReload, here),
                        redraw: false,
                    }
                } else {
                    ListOutcome::Handled { step: NavStep::Done, redraw: false }
                }
            },
            _ => ListOutcome::Handled { step: NavStep::Done, redraw: false },
        }
    }
}

/// The step of an outcome, if it has one.
pub open spec fn outcome_is_sound(outcome: ListOutcome) -> bool {
    outcome matches ListOutcome::Handled { step, redraw } ==> step_is_sound(step)
}

/// Whatever key a well-formed list handles, the step it asks for is sound.
pub proof fn lemma_key_step_is_sound(
    pre: MessageListState,
    event: AppEvent,
    post: MessageListState,
    outcome: ListOutcome,
)
    requires
        pre.wf(),
        pre.list_key_handled(event, post, outcome),
    ensures
        outcome_is_sound(outcome),
{
}

/// The step that follows an answer of the store is sound if the rule that
/// was to follow the load is.
pub proof fn lemma_resumed_step_is_sound(
    pre: MessageListState,
    post: MessageListState,
    step: NavStep,
    then: AfterLoad,
    fallback: Fallback,
    reply: LoadReply,
)
    requires
        pre.wf(),
        rule_is_sound(then, fallback),
        pre.resumed(post, step, then, fallback, reply),
    ensures
        step_is_sound(step),
{
}

/// The steps that follow a paste or the answer to a deletion are sound.
pub proof fn lemma_answer_step_is_sound(
    pre: MessageListState,
    post: MessageListState,
    step: NavStep,
    text: Option<String>,
    success: Option<bool>,
)
    requires
        pre.wf(),
        pre.paste_answered(post, step, text) || pre.deletion_answered(post, step, success)
            || pre.filters_applied(post, step),
    ensures
        step_is_sound(step),
{
}

/// A first Delete never deletes: it asks for confirmation when a row is
/// selected, and does nothing otherwise. The rows stay as they are.
pub proof fn lemma_first_delete_only_asks(
    pre: MessageListState,
    post: MessageListState,
    outcome: ListOutcome,
)
    requires
        !pre.is_editing,
        !pre.delete_confirmation,
        pre.list_key_handled(AppEvent::Delete, post, outcome),
    ensures
        !(outcome is Delete),
        post.messages == pre.messages,
        post.delete_confirmation == pre.has_selection(),
{
}

/// Two Delete presses in a row on a selected row name exactly that row for
/// deletion, and the answer of the store withdraws the confirmation.
pub proof fn lemma_second_delete_names_selected_row(
    pre: MessageListState,
    asked: MessageListState,
    first: ListOutcome,
    confirmed: MessageListState,
    second: ListOutcome,
    success: Option<bool>,
    post: MessageListState,
    step: NavStep,
)
    requires
        !pre.is_editing,
        !pre.delete_confirmation,
        pre.has_selection(),
        pre.list_key_handled(AppEvent::Delete, asked, first),
        asked.list_key_handled(AppEvent::Delete, confirmed, second),
        confirmed.deletion_answered(post, step, success),
    ensures
        !(first is Delete),
        second == ListOutcome::Delete(target_of(pre.messages@[pre.selected_index as int])),
        confirmed.messages == pre.messages,
        !post.delete_confirmation,
        success != Some(true) ==> post == pre,
{
}

/// Any key but Delete withdraws the confirmation and deletes nothing.
pub proof fn lemma_other_key_withdraws_confirmation(
    pre: MessageListState,
    event: AppEvent,
    post: MessageListState,
    outcome: ListOutcome,
)
    requires
        !(event is Delete),
        pre.list_key_handled(event, post, outcome),
    ensures
        !post.delete_confirmation,
        !(outcome is Delete),
{
}

} // verus!
