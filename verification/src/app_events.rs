//! How the viewer reacts to events.
//!
//! The viewer never touches the store, the clipboard or the terminal. An
//! event is handled up to the point where something outside is needed; that
//! need is returned as an [`Effect`], and the caller hands the outcome to
//! [`App::resume`], which goes on from there.

use crate::app::{App, AppState, Effect, KeyRepeatState, PayloadDetailSelection, Pending, Reply};
use crate::datetime::{
    datetime_format, local_instant, parse_datetime, parsed_datetime, utc_now, Timestamp,
};
use crate::events::{repeated_event, AppEvent, KeyCode};
use crate::filter_bar::{FilterField, FilterState};
use crate::json_formatter::{pretty_json, pretty_json_of};
use crate::list_keys::ListOutcome;
use crate::message_list::{AfterLoad, LoadReply, MessageListState, NavStep};
use crate::models::{FilterCriteria, Message};
use crate::text::text_view;
use crate::status_bar::{help_for, StatusBar, StatusBarState, ViewType};
use crate::topic_list::TopicListState;
use vstd::prelude::*;
use vstd::string::*;

verus! {

/// What is asked of the caller after a step of the message list.
pub open spec fn effect_of(step: NavStep) -> Effect {
    match step {
        NavStep::Done => Effect::Nothing,
        NavStep::Load { request, then, fallback } => Effect::LoadMessages(request),
    }
}

/// What the viewer waits for after a step of the message list.
pub open spec fn pending_of(step: NavStep) -> Pending {
    match step {
        NavStep::Done => Pending::Idle,
        NavStep::Load { request, then, fallback } => Pending::Messages(then, fallback),
    }
}

/// `post` is `pre` showing the keys of `view`.
pub open spec fn help_shown(pre: StatusBarState, post: StatusBarState, view: ViewType) -> bool {
    &&& post == (StatusBarState { current_view: view, help_text: post.help_text, ..pre })
    &&& post.help_text@ == help_for(view)
}

/// The text that Copy takes from a message in the payload view: the topic,
/// the payload, or the payload as indented JSON if it is JSON.
pub open spec fn copied_text(row: Message, selection: PayloadDetailSelection) -> Seq<char> {
    match selection {
        PayloadDetailSelection::Topic => row.topic@,
        PayloadDetailSelection::Payload => row.payload@,
        PayloadDetailSelection::FormattedJson => match pretty_json_of(row.payload@) {
            Some(pretty) => pretty,
            None => row.payload@,
        },
    }
}

/// The part that Tab selects next in the payload view.
pub open spec fn next_selection(selection: PayloadDetailSelection) -> PayloadDetailSelection {
    match selection {
        PayloadDetailSelection::Topic => PayloadDetailSelection::Payload,
        PayloadDetailSelection::Payload => PayloadDetailSelection::FormattedJson,
        PayloadDetailSelection::FormattedJson => PayloadDetailSelection::Topic,
    }
}

/// A sum that stops at the largest `usize`.
pub open spec fn capped_sum(a: int, b: int) -> int {
    if a + b > usize::MAX {
        usize::MAX as int
    } else {
        a + b
    }
}

/// A difference that stops at zero.
pub open spec fn floored_difference(a: int, b: int) -> int {
    if a >= b {
        a - b
    } else {
        0
    }
}

/// The bound that a time field of the filter bar yields: none for an empty
/// field or for text that does not read as a date; else the instant at which
/// the local clock shows the text, where `local` is that instant.
pub open spec fn bar_bound(text: Seq<char>, local: Option<Timestamp>) -> Option<Timestamp> {
    if text.len() > 0 && parsed_datetime(text, datetime_format()) is Some {
        local
    } else {
        None
    }
}

/// The pattern that a text field of the filter bar yields: none for an
/// empty field.
pub open spec fn bar_pattern(text: Seq<char>) -> Option<Seq<char>> {
    if text.len() > 0 {
        Some(text)
    } else {
        None
    }
}

/// `criteria` is the query for the topics that the filter bar asks for,
/// where `from_local` and `to_local` are the instants at which the local
/// clock shows the two time fields.
pub open spec fn criteria_built_with(
    bar: FilterState,
    criteria: FilterCriteria,
    from_local: Option<Timestamp>,
    to_local: Option<Timestamp>,
) -> bool {
    &&& text_view(criteria.topic_regex) == bar_pattern(bar.topic_filter@)
    &&& text_view(criteria.payload_regex) == bar_pattern(bar.payload_filter@)
    &&& criteria.start_time == bar_bound(bar.start_time@, from_local)
    &&& criteria.end_time == bar_bound(bar.end_time@, to_local)
    &&& criteria.limit == Some(1000i64)
    &&& criteria.offset == Some(0i64)
}

/// `criteria` is the query for the topics that the filter bar asks for,
/// under some reading of the local time zone.
pub open spec fn criteria_built(bar: FilterState, criteria: FilterCriteria) -> bool {
    exists|from_local: Option<Timestamp>, to_local: Option<Timestamp>| #[trigger]
        criteria_built_with(bar, criteria, from_local, to_local)
}

/// What follows the load after a quick filter was switched: a list that
/// followed the newest message selects it again.
pub open spec fn refocus_rule(following: bool) -> AfterLoad {
    if following {
        AfterLoad::SelectNewest
    } else {
        AfterLoad::Stay
    }
}

/// The mark of slot `index` shows `on`, if the marks are shown and the slot
/// has one; every other mark stays.
pub open spec fn mark_synced(
    pre: StatusBarState,
    post: StatusBarState,
    shown: bool,
    index: int,
    on: bool,
) -> bool {
    &&& post == (StatusBarState { quick_filter_states: post.quick_filter_states, ..pre })
    &&& post.quick_filter_states@ == if shown && 0 <= index < pre.quick_filter_states@.len() {
        pre.quick_filter_states@.update(
            index,
            (pre.quick_filter_states@[index].0, pre.quick_filter_states@[index].1, on),
        )
    } else {
        pre.quick_filter_states@
    }
}

/// The marks show the names and colours of the rules and the switches of
/// the list, for as many slots as have both a mark and a rule.
pub open spec fn marks_synced(
    pre: StatusBarState,
    post: StatusBarState,
    app: App,
    list: MessageListState,
) -> bool {
    &&& post == (StatusBarState { quick_filter_states: post.quick_filter_states, ..pre })
    &&& post.quick_filter_states@.len() == pre.quick_filter_states@.len()
    &&& forall|i: int|
        0 <= i < pre.quick_filter_states@.len() ==> if app.config.quick_filters.enabled && i < 5
            && i < app.config.quick_filters.filters@.len() {
            &&& (#[trigger] post.quick_filter_states@[i]).0@
                == app.config.quick_filters.filters@[i].name@
            &&& post.quick_filter_states@[i].1@ == app.config.quick_filters.filters@[i].color@
            &&& post.quick_filter_states@[i].2 == (i < list.quick_filter_states@.len()
                && list.quick_filter_states@[i])
        } else {
            post.quick_filter_states@[i] == pre.quick_filter_states@[i]
        }
}

impl App {
    /// `self` as every event finds it: nothing is pending, and any event
    /// but Delete has withdrawn both delete confirmations.
    pub open spec fn facing(self, event: AppEvent) -> App {
        if event is Delete {
            App { pending: Pending::Idle, ..self }
        } else {
            App {
                pending: Pending::Idle,
                message_list_state: self.message_list_state.unconfirmed(),
                topic_list_state: TopicListState {
                    delete_confirmation: false,
                    ..self.topic_list_state
                },
                ..self
            }
        }
    }

    /// What going back one screen gives: from the messages to the topics,
    /// from a payload to the messages; elsewhere nothing.
    pub open spec fn went_back(self, post: App) -> bool {
        match self.state {
            AppState::MessageList => {
                &&& post == (App {
                    state: AppState::TopicList,
                    needs_full_redraw: true,
                    status_bar_state: post.status_bar_state,
                    ..self
                })
                &&& help_shown(self.status_bar_state, post.status_bar_state, ViewType::TopicList)
            },
            AppState::PayloadDetail => post == (App {
                state: AppState::MessageList,
                payload_detail_scroll_offset: 0,
                needs_full_redraw: true,
                ..self
            }),
            _ => post == self,
        }
    }

    /// `self` showing the payload of the selected message.
    pub open spec fn detail_opened(self) -> App {
        App {
            state: AppState::PayloadDetail,
            payload_detail_scroll_offset: 0,
            needs_full_redraw: true,
            ..self
        }
    }

    /// What the outcome of a key of the message list means for the viewer,
    /// `list` being the message list after the key.
    pub open spec fn list_outcome_applied(
        self,
        list: MessageListState,
        outcome: ListOutcome,
        post: App,
        effect: Effect,
    ) -> bool {
        let with_list = App { message_list_state: list, ..self };
        match outcome {
            ListOutcome::Handled { step, redraw } => post == (App {
                needs_full_redraw: self.needs_full_redraw || redraw,
                pending: pending_of(step),
                ..with_list
            }) && effect == effect_of(step),
            ListOutcome::OpenDetail => post == with_list.detail_opened() && effect is Nothing,
            ListOutcome::Back => with_list.went_back(post) && effect is Nothing,
            ListOutcome::ReadClipboard => post == (App { pending: Pending::Paste, ..with_list })
                && effect is ReadClipboard,
            ListOutcome::Delete(target) => post == (App {
                pending: Pending::MessageDelete,
                ..with_list
            }) && effect == Effect::DeleteMessage(target),
        }
    }

    /// What an event gives on the message list: the list handles the key,
    /// and the viewer follows its outcome.
    pub open spec fn message_list_event_handled(
        self,
        event: AppEvent,
        post: App,
        effect: Effect,
    ) -> bool {
        exists|outcome: ListOutcome| #[trigger]
            self.message_list_state.list_key_handled(event, post.message_list_state, outcome)
                && self.list_outcome_applied(post.message_list_state, outcome, post, effect)
    }

    /// What a step of the message list means for the viewer, `list` being
    /// the message list after the step.
    pub open spec fn step_issued(
        self,
        list: MessageListState,
        step: NavStep,
        post: App,
        effect: Effect,
    ) -> bool {
        post == (App { message_list_state: list, pending: pending_of(step), ..self }) && effect
            == effect_of(step)
    }

    /// What an event gives in the payload view: Left goes back, the arrows
    /// and page keys scroll, Tab selects the next part, Copy takes the
    /// selected part of the message.
    pub open spec fn payload_detail_event_handled(
        self,
        event: AppEvent,
        post: App,
        effect: Effect,
    ) -> bool {
        let rows = crate::app::detail_rows_for_height(self.terminal_height as int);
        let offset = self.payload_detail_scroll_offset as int;
        match event {
            AppEvent::NavigateLeft => self.went_back(post) && effect is Nothing,
            AppEvent::NavigateUp => post == (App {
                payload_detail_scroll_offset: floored_difference(offset, 1) as usize,
                ..self
            }) && effect is Nothing,
            AppEvent::NavigateDown => post == (App {
                payload_detail_scroll_offset: capped_sum(offset, 1) as usize,
                ..self
            }) && effect is Nothing,
            AppEvent::PageUp => post == (App {
                payload_detail_scroll_offset: floored_difference(offset, rows) as usize,
                ..self
            }) && effect is Nothing,
            AppEvent::PageDown => post == (App {
                payload_detail_scroll_offset: capped_sum(offset, rows) as usize,
                ..self
            }) && effect is Nothing,
            AppEvent::Tab => post == (App {
                payload_detail_selection: next_selection(self.payload_detail_selection),
                ..self
            }) && effect is Nothing,
            AppEvent::Copy => post == self && if self.message_list_state.has_selection() {
                effect matches Effect::CopyText(text) && text@ == copied_text(
                    self.message_list_state.messages@[self.message_list_state.selected_index as int],
                    self.payload_detail_selection,
                )
            } else {
                effect is Nothing
            },
            _ => post == self && effect is Nothing,
        }
    }

    /// What Copy gives: on the message list the payload of the selected
    /// message, in the payload view the selected part, elsewhere nothing.
    pub open spec fn copy_handled(self, post: App, effect: Effect) -> bool {
        match self.state {
            AppState::MessageList => post == self && if self.message_list_state.has_selection() {
                effect matches Effect::CopyText(text) && text@
                    == self.message_list_state.messages@[self.message_list_state.selected_index as int].payload@
            } else {
                effect is Nothing
            },
            AppState::PayloadDetail => self.payload_detail_event_handled(
                AppEvent::Copy,
                post,
                effect,
            ),
            _ => post == self && effect is Nothing,
        }
    }

    /// What a refresh gives: on the topic list the topics are asked for; on
    /// the message list the page is loaded again, but only while the list
    /// follows the newest message; elsewhere nothing.
    pub open spec fn refreshed(self, post: App, effect: Effect) -> bool {
        match self.state {
            AppState::TopicList => {
                &&& post == (App { pending: Pending::Topics, ..self })
                &&& effect matches Effect::LoadTopics(criteria) && criteria_built(
                    self.filter_state,
                    criteria,
                )
            },
            AppState::MessageList => if self.message_list_state.follows_newest() {
                exists|step: NavStep| #[trigger]
                    self.message_list_state.began(
                        post.message_list_state,
                        step,
                        AfterLoad::Stay,
                        self.message_list_state.place(),
                    )
                        && self.step_issued(post.message_list_state, step, post, effect)
            } else {
                post == self && effect is Nothing
            },
            _ => post == self && effect is Nothing,
        }
    }

    /// What switching a quick filter gives. On the message list the page
    /// is loaded again, and a list that followed the newest message selects
    /// it again. On the topic list the switch is just kept. Where the marks
    /// are shown, the mark of the slot follows the switch.
    pub open spec fn quick_filter_handled(self, index: usize, post: App, effect: Effect) -> bool {
        let list = self.message_list_state;
        let switches = crate::quick_filter::toggled(list.quick_filter_states@, index as int);
        let on = index < switches.len() && switches[index as int];
        let then = refocus_rule(list.follows_newest());
        match self.state {
            AppState::MessageList => exists|toggled: MessageListState, step: NavStep|
                {
                    &&& toggled == (MessageListState {
                        quick_filter_states: toggled.quick_filter_states,
                        ..list
                    })
                    &&& toggled.quick_filter_states@ == switches
                    &&& #[trigger] toggled.began(post.message_list_state, step, then, list.place())
                    &&& post == (App {
                        message_list_state: post.message_list_state,
                        status_bar_state: post.status_bar_state,
                        pending: pending_of(step),
                        ..self
                    })
                    &&& effect == effect_of(step)
                    &&& mark_synced(
                        self.status_bar_state,
                        post.status_bar_state,
                        self.config.quick_filters.enabled,
                        index as int,
                        on,
                    )
                },
            AppState::TopicList => {
                &&& post == (App {
                    message_list_state: post.message_list_state,
                    status_bar_state: post.status_bar_state,
                    ..self
                })
                &&& post.message_list_state == (MessageListState {
                    quick_filter_states: post.message_list_state.quick_filter_states,
                    ..list
                })
                &&& post.message_list_state.quick_filter_states@ == switches
                &&& mark_synced(
                    self.status_bar_state,
                    post.status_bar_state,
                    self.config.quick_filters.enabled,
                    index as int,
                    on,
                )
                &&& effect is Nothing
            },
            _ => post == self && effect is Nothing,
        }
    }

    /// What entering the selected topic starts: the message list takes the
    /// topic and the page size of the terminal, and its first page is asked
    /// for. Without a selected topic nothing happens.
    pub open spec fn topic_entered(self, post: App, effect: Effect) -> bool {
        if self.topic_list_state.has_selection() {
            let topic =
                self.topic_list_state.topics@[self.topic_list_state.selected_index as int].topic;
            exists|prepared: MessageListState, step: NavStep|
                {
                    &&& prepared.messages@.len() == 0
                    &&& prepared.current_topic is Some
                    &&& prepared.current_topic->0@ == topic@
                    &&& prepared == (MessageListState {
                        messages: prepared.messages,
                        current_topic: prepared.current_topic,
                        selected_index: 0,
                        scroll_offset: 0,
                        total_count: 0,
                        page: 1,
                        per_page: crate::message_list::rows_for_height(
                            self.terminal_height as int,
                        ) as usize,
                        ..self.message_list_state
                    })
                    &&& #[trigger] prepared.asked(
                        post.message_list_state,
                        step,
                        AfterLoad::Stay,
                        prepared.place(),
                    )
                    &&& post == (App {
                        message_list_state: post.message_list_state,
                        pending: Pending::EnterTopic,
                        ..self
                    })
                    &&& effect == effect_of(step)
                }
        } else {
            post == self && effect is Nothing
        }
    }

    /// What going forward one screen gives: from the topics into the
    /// selected topic, from the messages to the payload view.
    pub open spec fn went_forward(self, post: App, effect: Effect) -> bool {
        match self.state {
            AppState::TopicList => self.topic_entered(post, effect),
            AppState::MessageList => post == self.detail_opened() && effect is Nothing,
            _ => post == self && effect is Nothing,
        }
    }

    /// The keys of the filter bar go to the bar while it is edited, but for
    /// Up and Down on its two text fields, which move through the topics.
    pub open spec fn bar_takes(self, event: AppEvent) -> bool {
        self.filter_state.is_editing && !((self.filter_state.active_field == FilterField::Topic
            || self.filter_state.active_field == FilterField::Payload) && (event is NavigateUp
            || event is NavigateDown))
    }

    /// The key of the filter bar makes the whole screen be drawn again: a
    /// key that moves or turns, on a time field or with the digit wheel on.
    pub open spec fn bar_key_redraws(self, event: AppEvent) -> bool {
        (self.filter_state.time_edit_mode || self.filter_state.active_field.is_time_field()) && (
        event is NavigateLeft || event is NavigateRight || event is NavigateUp
            || event is NavigateDown || event is PageUp || event is PageDown)
    }

    /// What Delete gives on the topic list. Without a selected topic
    /// nothing happens. The first press asks for confirmation and deletes
    /// nothing; the press after it names the selected topic for deletion.
    pub open spec fn topic_delete_pressed(self, post: App, effect: Effect) -> bool {
        if !self.topic_list_state.has_selection() {
            post == self && effect is Nothing
        } else if self.topic_list_state.delete_confirmation {
            post == (App { pending: Pending::TopicDelete, ..self }) && effect
                == Effect::DeleteTopic(
                self.topic_list_state.topics@[self.topic_list_state.selected_index as int].topic,
            )
        } else {
            post == (App {
                topic_list_state: TopicListState {
                    delete_confirmation: true,
                    ..self.topic_list_state
                },
                needs_full_redraw: true,
                ..self
            }) && effect is Nothing
        }
    }

    /// What an event gives on the topic list. While the filter bar is
    /// edited its keys go to the bar, and the topics are asked for again
    /// after a key that types or that ends the digit wheel. Otherwise Tab
    /// opens the bar, the arrows, page keys, Home and End move through the
    /// topics, and Delete asks twice.
    pub open spec fn topic_list_event_handled(
        self,
        event: AppEvent,
        post: App,
        effect: Effect,
    ) -> bool {
        if self.bar_takes(event) {
            let typed = self.filter_state.key_applies(event) || event is Input
                || event is Backspace;
            let keyed = App {
                filter_state: post.filter_state,
                needs_full_redraw: self.needs_full_redraw || self.bar_key_redraws(event),
                ..self
            };
            &&& self.filter_state.key_handled(event, post.filter_state)
            &&& if typed {
                keyed.refreshed(post, effect)
            } else {
                post == keyed && effect is Nothing
            }
        } else {
            match event {
                AppEvent::Tab => post == (App {
                    filter_state: FilterState {
                        active_field: if self.filter_state.is_editing {
                            self.filter_state.active_field.following()
                        } else {
                            FilterField::Topic
                        },
                        is_editing: true,
                        ..self.filter_state
                    },
                    ..self
                }) && effect is Nothing,
                AppEvent::NavigateUp => post == (App {
                    topic_list_state: self.topic_list_state.moved_up(),
                    ..self
                }) && effect is Nothing,
                AppEvent::NavigateDown => post == (App {
                    topic_list_state: self.topic_list_state.moved_down(),
                    ..self
                }) && effect is Nothing,
                AppEvent::NavigateLeft => self.went_back(post) && effect is Nothing,
                AppEvent::PageUp => post == (App {
                    topic_list_state: self.topic_list_state.paged_up(),
                    ..self
                }) && effect is Nothing,
                AppEvent::PageDown => post == (App {
                    topic_list_state: self.topic_list_state.paged_down(),
                    ..self
                }) && effect is Nothing,
                AppEvent::Home => post == (App {
                    topic_list_state: self.topic_list_state.at_top(),
                    ..self
                }) && effect is Nothing,
                AppEvent::End => post == (App {
                    topic_list_state: self.topic_list_state.at_bottom(),
                    ..self
                }) && effect is Nothing,
                AppEvent::Delete => self.topic_delete_pressed(post, effect),
                _ => post == self && effect is Nothing,
            }
        }
    }

    /// What the `/` key gives: the filter bar opens on its first field, or
    /// closes.
    pub open spec fn filter_mode_toggled(self) -> App {
        App {
            filter_state: if self.filter_state.is_editing {
                FilterState { is_editing: false, ..self.filter_state }
            } else {
                FilterState {
                    is_editing: true,
                    active_field: FilterField::Topic,
                    ..self.filter_state
                }
            },
            ..self
        }
    }

    /// What Escape gives: a field of the message list that is edited takes
    /// the key; else an open filter bar closes; else the topic list quits
    /// and any other screen goes back.
    pub open spec fn escape_handled(self, post: App, effect: Effect) -> bool {
        if self.state == AppState::MessageList && self.message_list_state.is_editing {
            self.message_list_event_handled(AppEvent::Escape, post, effect)
        } else if self.filter_state.is_editing {
            post == (App {
                filter_state: FilterState { is_editing: false, ..self.filter_state },
                ..self
            }) && effect is Nothing
        } else if self.state == AppState::TopicList {
            post == self && effect is Quit
        } else {
            self.went_back(post) && effect is Nothing
        }
    }

    /// What Enter gives: the message list takes the key; else an open
    /// filter bar is applied and closes; else the viewer goes forward.
    pub open spec fn enter_handled(self, post: App, effect: Effect) -> bool {
        if self.state == AppState::MessageList {
            self.message_list_event_handled(AppEvent::Enter, post, effect)
        } else if self.filter_state.is_editing {
            (App {
                filter_state: FilterState { is_editing: false, ..self.filter_state },
                ..self
            }).refreshed(post, effect)
        } else {
            self.went_forward(post, effect)
        }
    }

    /// What an event gives.
    pub open spec fn event_handled(self, event: AppEvent, post: App, effect: Effect) -> bool {
        let base = self.facing(event);
        match event {
            AppEvent::Quit => post == base && effect is Quit,
            AppEvent::Copy => base.copy_handled(post, effect),
            AppEvent::Refresh => base.refreshed(post, effect),
            AppEvent::Filter => post == base.filter_mode_toggled() && effect is Nothing,
            AppEvent::Escape => base.escape_handled(post, effect),
            AppEvent::Enter => base.enter_handled(post, effect),
            AppEvent::QuickFilter(index) => base.quick_filter_handled(index, post, effect),
            _ => match base.state {
                AppState::TopicList => base.topic_list_event_handled(event, post, effect),
                AppState::MessageList => base.message_list_event_handled(event, post, effect),
                AppState::PayloadDetail => base.payload_detail_event_handled(event, post, effect),
                _ => post == base && effect is Nothing,
            },
        }
    }

    /// `self` on the message list of `topic`, after its first page came in.
    pub open spec fn topic_shown(self, post: App) -> bool {
        &&& post == (App {
            state: AppState::MessageList,
            needs_full_redraw: true,
            status_bar_state: post.status_bar_state,
            ..self
        })
        &&& self.message_list_state.current_topic is Some
        &&& exists|labelled: StatusBarState|
            {
                &&& #[trigger] help_shown(
                    self.status_bar_state,
                    labelled,
                    ViewType::MessageList(self.message_list_state.current_topic->0),
                )
                &&& marks_synced(labelled, post.status_bar_state, self, self.message_list_state)
            }
    }

    /// What the answer of the caller gives. An answer that the viewer does
    /// not wait for changes nothing but that the viewer waits no more.
    pub open spec fn resumed(self, reply: Reply, post: App, effect: Effect) -> bool {
        let idle = App { pending: Pending::Idle, ..self };
        match (self.pending, reply) {
            (Pending::Messages(then, fallback), Reply::Messages(answer)) => exists|step: NavStep|
                #[trigger] self.message_list_state.resumed(
                    post.message_list_state,
                    step,
                    then,
                    fallback,
                    answer,
                )
                    && idle.step_issued(post.message_list_state, step, post, effect),
            (Pending::EnterTopic, Reply::Messages(answer)) => match answer {
                LoadReply::Failed => post == idle && effect is Nothing,
                LoadReply::Rows { page, all } => effect is Nothing && exists|loaded: MessageListState|
                    #[trigger] self.message_list_state.loaded(
                        loaded,
                        page@,
                        all@,
                    ) && if loaded.current_topic is Some {
                        (App { message_list_state: loaded, ..idle }).topic_shown(post)
                    } else {
                        post == (App { message_list_state: loaded, ..idle })
                    },
            },
            (Pending::Topics, Reply::Topics(answer)) => effect is Nothing && match answer {
                Some(topics) => {
                    &&& post == (App {
                        topic_list_state: post.topic_list_state,
                        status_bar_state: post.status_bar_state,
                        ..idle
                    })
                    &&& post.topic_list_state == (TopicListState {
                        topics,
                        ..self.topic_list_state
                    }).selecting(
                        crate::topic_list::reselected(
                            self.topic_list_state.selected_index as int,
                            self.topic_list_state.topics@.len() == 0,
                            topics@.len() as int,
                        ),
                    )
                    &&& post.status_bar_state == (StatusBarState {
                        total_topics: topics@.len() as usize,
                        last_update: post.status_bar_state.last_update,
                        ..self.status_bar_state
                    })
                    &&& post.status_bar_state.last_update is Some
                },
                None => post == idle,
            },
            (Pending::MessageDelete, Reply::MessageDeleted(success)) => exists|step: NavStep|
                #[trigger] self.message_list_state.deletion_answered(
                    post.message_list_state,
                    step,
                    success,
                ) && idle.step_issued(post.message_list_state, step, post, effect),
            (Pending::TopicDelete, Reply::TopicDeleted(count)) => {
                let cleared = App {
                    topic_list_state: TopicListState {
                        delete_confirmation: false,
                        ..self.topic_list_state
                    },
                    ..idle
                };
                if count is Some {
                    cleared.refreshed(post, effect)
                } else {
                    post == cleared && effect is Nothing
                }
            },
            (Pending::Paste, Reply::Clipboard(text)) => exists|step: NavStep| #[trigger]
                self.message_list_state.paste_answered(post.message_list_state, step, text)
                    && idle.step_issued(post.message_list_state, step, post, effect),
            _ => post == idle && effect is Nothing,
        }
    }
}

/// The held key after it went down at `now`.
pub open spec fn key_held(key: KeyCode, now: u64) -> KeyRepeatState {
    KeyRepeatState {
        current_key: Some(key),
        key_pressed_at: Some(now),
        last_repeat_at: None,
        is_repeating: false,
    }
}

/// No key is held.
pub open spec fn no_key_held() -> KeyRepeatState {
    KeyRepeatState {
        current_key: None,
        key_pressed_at: None,
        last_repeat_at: None,
        is_repeating: false,
    }
}

/// Milliseconds from `since` to `now`; zero if `now` is the earlier.
pub open spec fn elapsed(now: u64, since: u64) -> int {
    if now >= since {
        now - since
    } else {
        0
    }
}

/// A held key starts to repeat half a second after it went down.
pub const REPEAT_DELAY_MS: u64 = 500;

/// A key that repeats does so every fifty milliseconds.
pub const REPEAT_INTERVAL_MS: u64 = 50;

impl KeyRepeatState {
    /// The held key as the clock at `now` finds it: repeating, from now
    /// on, once the delay has passed.
    pub open spec fn ripened(self, now: u64) -> KeyRepeatState {
        if self.current_key is Some && self.key_pressed_at is Some && !self.is_repeating
            && elapsed(now, self.key_pressed_at->0) >= REPEAT_DELAY_MS {
            KeyRepeatState { is_repeating: true, last_repeat_at: Some(now), ..self }
        } else {
            self
        }
    }

    /// The clock at `now` finds a repeat due: the key repeats and the
    /// interval has passed since its last repeat.
    pub open spec fn repeat_due(self, now: u64) -> bool {
        &&& self.current_key is Some
        &&& self.key_pressed_at is Some
        &&& self.ripened(now).is_repeating
        &&& elapsed(
            now,
            match self.ripened(now).last_repeat_at {
                Some(at) => at,
                None => self.key_pressed_at->0,
            },
        ) >= REPEAT_INTERVAL_MS
    }
}

impl App {
    /// Records what a step of the message list leaves pending.
    fn issue(&mut self, step: NavStep) -> (effect: Effect)
        ensures
            *final(self) == (App { pending: pending_of(step), ..*old(self) }),
            effect == effect_of(step),
    {
        match step {
            NavStep::Done => {
                self.pending = Pending::Idle;
                Effect::Nothing
            },
            NavStep::Load { request, then, fallback } => {
                self.pending = Pending::Messages(then, fallback);
                Effect::LoadMessages(request)
            },
        }
    }

    /// Goes back one screen.
    pub fn navigate_back(&mut self)
        ensures
            old(self).wf() ==> final(self).wf(),
            old(self).went_back(*final(self)),
    {
        match self.state {
            AppState::MessageList => {
                self.state = AppState::TopicList;
                self.needs_full_redraw = true;
                StatusBar::set_help_text_for_view(&mut self.status_bar_state, &ViewType::TopicList);
            },
            AppState::PayloadDetail => {
                self.state = AppState::MessageList;
                self.payload_detail_scroll_offset = 0;
                self.needs_full_redraw = true;
            },
            _ => {},
        }
    }

    /// Follows the outcome of a key of the message list.
    fn apply_list_outcome(&mut self, outcome: ListOutcome) -> (effect: Effect)
        ensures
            old(self).list_outcome_applied(
                old(self).message_list_state,
                outcome,
                *final(self),
                effect,
            ),
            final(self).message_list_state == old(self).message_list_state,
            old(self).wf() && crate::list_keys::outcome_is_sound(outcome) ==> final(self).wf(),
    {
        match outcome {
            ListOutcome::Handled { step, redraw } => {
                if redraw {
                    self.needs_full_redraw = true;
                }
                self.issue(step)
            },
            ListOutcome::OpenDetail => {
                self.state = AppState::PayloadDetail;
                self.payload_detail_scroll_offset = 0;
                self.needs_full_redraw = true;
                Effect::Nothing
            },
            ListOutcome::Back => {
                self.navigate_back();
                Effect::Nothing
            },
            ListOutcome::ReadClipboard => {
                self.pending = Pending::Paste;
                Effect::ReadClipboard
            },
            ListOutcome::Delete(target) => {
                self.pending = Pending::MessageDelete;
                Effect::DeleteMessage(target)
            },
        }
    }

    /// Handles an event on the message list.
    pub fn handle_message_list_event(&mut self, event: &AppEvent) -> (effect: Effect)
        ensures
            old(self).wf() ==> final(self).wf(),
            old(self).message_list_event_handled(*event, *final(self), effect),
    {
        let outcome = self.message_list_state.handle_key(event);
        let ghost keyed = *self;
        proof {
            if old(self).wf() {
                crate::list_keys::lemma_key_step_is_sound(
                    old(self).message_list_state,
                    *event,
                    self.message_list_state,
                    outcome,
                );
            }
        }
        let effect = self.apply_list_outcome(outcome);
        assert(old(self).message_list_state.list_key_handled(
            *event,
            self.message_list_state,
            outcome,
        ) && old(self).list_outcome_applied(self.message_list_state, outcome, *self, effect)) by {
            assert(keyed == (App { message_list_state: self.message_list_state, ..*old(self) }));
        }
        effect
    }

    /// Tells whether the periodic refresh may reload the message list.
    pub fn should_auto_update_messages(&self) -> (reload: bool)
        ensures
            reload == self.message_list_state.follows_newest(),
    {
        self.message_list_state.should_auto_update_messages()
    }

    /// The text that Copy takes from `row` in the payload view.
    fn copy_of(row: &Message, selection: PayloadDetailSelection) -> (text: String)
        ensures
            text@ == copied_text(*row, selection),
    {
        match selection {
            PayloadDetailSelection::Topic => row.topic.clone(),
            PayloadDetailSelection::Payload => row.payload.clone(),
            PayloadDetailSelection::FormattedJson => match pretty_json(row.payload.as_str()) {
                Some(pretty) => pretty,
                None => row.payload.clone(),
            },
        }
    }

    /// Handles an event in the payload view.
    pub fn handle_payload_detail_event(&mut self, event: &AppEvent) -> (effect: Effect)
        ensures
            old(self).wf() ==> final(self).wf(),
            old(self).payload_detail_event_handled(*event, *final(self), effect),
    {
        let rows: usize = self.get_payload_detail_page_size();
        match event {
            AppEvent::NavigateLeft => {
                self.navigate_back();
            },
            AppEvent::NavigateUp => {
                self.payload_detail_scroll_offset = self.payload_detail_scroll_offset.saturating_sub(
                    1,
                );
            },
            AppEvent::NavigateDown => {
                self.payload_detail_scroll_offset = self.payload_detail_scroll_offset.saturating_add(
                    1,
                );
            },
            AppEvent::PageUp => {
                self.payload_detail_scroll_offset = self.payload_detail_scroll_offset.saturating_sub(
                    rows,
                );
            },
            AppEvent::PageDown => {
                self.payload_detail_scroll_offset = self.payload_detail_scroll_offset.saturating_add(
                    rows,
                );
            },
            AppEvent::Tab => {
                self.payload_detail_selection = match self.payload_detail_selection {
                    PayloadDetailSelection::Topic => PayloadDetailSelection::Payload,
                    PayloadDetailSelection::Payload => PayloadDetailSelection::FormattedJson,
                    PayloadDetailSelection::FormattedJson => PayloadDetailSelection::Topic,
                };
            },
            AppEvent::Copy => {
                match self.message_list_state.get_selected_message() {
                    Some(row) => {
                        return Effect::CopyText(Self::copy_of(row, self.payload_detail_selection));
                    },
                    None => {},
                }
            },
            _ => {},
        }
        Effect::Nothing
    }

    /// Handles Copy.
    fn handle_copy(&mut self) -> (effect: Effect)
        ensures
            old(self).wf() ==> final(self).wf(),
            old(self).copy_handled(*final(self), effect),
    {
        match self.state {
            AppState::MessageList => match self.message_list_state.get_selected_message() {
                Some(row) => Effect::CopyText(row.payload.clone()),
                None => Effect::Nothing,
            },
            AppState::PayloadDetail => self.handle_payload_detail_event(&AppEvent::Copy),
            _ => Effect::Nothing,
        }
    }

    /// The instant at which the local clock shows `text`, if the text reads
    /// as a date and the machine's time zone names one instant for it. Text
    /// that does not read as a date has no such instant; for text that does,
    /// the machine's time zone decides.
    fn local_reading(text: &str) -> (instant: Option<Timestamp>)
        ensures
            parsed_datetime(text@, datetime_format()) is None ==> instant is None,
    {
        match parse_datetime(text, "%Y-%m-%d %H:%M:%S") {
            Some(parts) => local_instant(parts),
            None => None,
        }
    }

    /// The query for the topics that the filter bar asks for, given the
    /// instants at which the local clock shows its two time fields.
    pub fn build_filter_criteria_with(
        &self,
        from_local: Option<Timestamp>,
        to_local: Option<Timestamp>,
    ) -> (criteria: FilterCriteria)
        ensures
            criteria_built_with(self.filter_state, criteria, from_local, to_local),
    {
        let mut criteria: FilterCriteria = FilterCriteria::default();
        if self.filter_state.topic_filter.as_str().unicode_len() > 0 {
            criteria.topic_regex = Some(self.filter_state.topic_filter.clone());
        }
        if self.filter_state.payload_filter.as_str().unicode_len() > 0 {
            criteria.payload_regex = Some(self.filter_state.payload_filter.clone());
        }
        if self.filter_state.start_time.as_str().unicode_len() > 0 && parse_datetime(
            self.filter_state.start_time.as_str(),
            "%Y-%m-%d %H:%M:%S",
        ).is_some() {
            criteria.start_time = from_local;
        }
        if self.filter_state.end_time.as_str().unicode_len() > 0 && parse_datetime(
            self.filter_state.end_time.as_str(),
            "%Y-%m-%d %H:%M:%S",
        ).is_some() {
            criteria.end_time = to_local;
        }
        criteria
    }

    /// The query for the topics that the filter bar asks for; the time
    /// fields are read on the local clock of the machine.
    pub fn build_filter_criteria(&self) -> (criteria: FilterCriteria)
        ensures
            criteria_built(self.filter_state, criteria),
    {
        let from_local: Option<Timestamp> = Self::local_reading(
            self.filter_state.start_time.as_str(),
        );
        let to_local: Option<Timestamp> = Self::local_reading(self.filter_state.end_time.as_str());
        let criteria = self.build_filter_criteria_with(from_local, to_local);
        assert(criteria_built_with(self.filter_state, criteria, from_local, to_local));
        criteria
    }

    /// Asks for fresh data for the screen that is shown.
    pub fn refresh_data(&mut self) -> (effect: Effect)
        ensures
            old(self).wf() ==> final(self).wf(),
            old(self).refreshed(*final(self), effect),
    {
        match self.state {
            AppState::TopicList => {
                let criteria = self.build_filter_criteria();
                self.pending = Pending::Topics;
                Effect::LoadTopics(criteria)
            },
            AppState::MessageList => {
                if self.should_auto_update_messages() {
                    let here = self.message_list_state.get_place();
                    let step = self.message_list_state.begin_load(AfterLoad::Stay, here);
                    let effect = self.issue(step);
                    assert(old(self).message_list_state.began(
                        self.message_list_state,
                        step,
                        AfterLoad::Stay,
                        old(self).message_list_state.place(),
                    ) && old(self).step_issued(self.message_list_state, step, *self, effect));
                    effect
                } else {
                    Effect::Nothing
                }
            },
            _ => Effect::Nothing,
        }
    }

    /// Makes the mark of one slot follow the switch of the list.
    fn sync_mark(&mut self, index: usize)
        ensures
            old(self).wf() ==> final(self).wf(),
            mark_synced(
                old(self).status_bar_state,
                final(self).status_bar_state,
                old(self).config.quick_filters.enabled,
                index as int,
                index < old(self).message_list_state.quick_filter_states@.len() && old(self).message_list_state.quick_filter_states@[index as int],
            ),
            *final(self) == (App { status_bar_state: final(self).status_bar_state, ..*old(self) }),
    {
        if self.config.quick_filters.enabled && index < self.status_bar_state.quick_filter_states.len() {
            let on: bool = self.message_list_state.get_quick_filter_state(index);
            let mark: (String, String, bool) = (
                self.status_bar_state.quick_filter_states[index].0.clone(),
                self.status_bar_state.quick_filter_states[index].1.clone(),
                on,
            );
            self.status_bar_state.quick_filter_states.set(index, mark);
        }
    }

    /// Switches a quick filter.
    pub fn handle_quick_filter(&mut self, index: usize) -> (effect: Effect)
        ensures
            old(self).wf() ==> final(self).wf(),
            old(self).quick_filter_handled(index, *final(self), effect),
    {
        match self.state {
            AppState::MessageList => {
                let following: bool = self.should_auto_update_messages();
                let here = self.message_list_state.get_place();
                self.message_list_state.toggle_quick_filter(index);
                let ghost toggled = self.message_list_state;
                let then: AfterLoad = if following {
                    AfterLoad::SelectNewest
                } else {
                    AfterLoad::Stay
                };
                self.sync_mark(index);
                let step = self.message_list_state.begin_load(then, here);
                let effect = self.issue(step);
                assert(toggled.began(
                    self.message_list_state,
                    step,
                    then,
                    old(self).message_list_state.place(),
                ));
                effect
            },
            AppState::TopicList => {
                self.message_list_state.toggle_quick_filter(index);
                self.sync_mark(index);
                Effect::Nothing
            },
            _ => Effect::Nothing,
        }
    }

    /// Goes forward one screen.
    pub fn navigate_forward(&mut self) -> (effect: Effect)
        ensures
            old(self).wf() ==> final(self).wf(),
            old(self).went_forward(*final(self), effect),
    {
        match self.state {
            AppState::TopicList => {
                let topic: String = match self.topic_list_state.get_selected_topic() {
                    Some(row) => row.topic.clone(),
                    None => {
                        return Effect::Nothing;
                    },
                };
                self.message_list_state.set_topic(topic);
                self.message_list_state.update_per_page(self.terminal_height);
                let ghost prepared = self.message_list_state;
                let here = self.message_list_state.get_place();
                let step = self.message_list_state.begin_load(AfterLoad::Stay, here);
                let effect = self.issue(step);
                self.pending = Pending::EnterTopic;
                assert(prepared.asked(
                    self.message_list_state,
                    step,
                    AfterLoad::Stay,
                    prepared.place(),
                ));
                effect
            },
            AppState::MessageList => {
                self.state = AppState::PayloadDetail;
                self.payload_detail_scroll_offset = 0;
                self.needs_full_redraw = true;
                Effect::Nothing
            },
            _ => Effect::Nothing,
        }
    }

    /// Opens the filter bar on its first field, or closes it.
    pub fn toggle_filter_mode(&mut self)
        ensures
            old(self).wf() ==> final(self).wf(),
            *final(self) == old(self).filter_mode_toggled(),
    {
        if self.filter_state.is_editing {
            self.filter_state.is_editing = false;
        } else {
            self.filter_state.is_editing = true;
            self.filter_state.active_field = FilterField::Topic;
        }
    }

    /// Tells whether the filter bar takes the key.
    fn bar_takes_key(&self, event: &AppEvent) -> (takes: bool)
        ensures
            takes == self.bar_takes(*event),
    {
        let on_text: bool = match self.filter_state.active_field {
            FilterField::Topic => true,
            FilterField::Payload => true,
            _ => false,
        };
        let vertical: bool = match event {
            AppEvent::NavigateUp => true,
            AppEvent::NavigateDown => true,
            _ => false,
        };
        self.filter_state.is_editing && !(on_text && vertical)
    }

    /// Tells whether the key of the filter bar makes the whole screen be
    /// drawn again.
    fn bar_redraws(&self, event: &AppEvent) -> (redraw: bool)
        ensures
            redraw == self.bar_key_redraws(*event),
    {
        let moves: bool = match event {
            AppEvent::NavigateLeft => true,
            AppEvent::NavigateRight => true,
            AppEvent::NavigateUp => true,
            AppEvent::NavigateDown => true,
            AppEvent::PageUp => true,
            AppEvent::PageDown => true,
            _ => false,
        };
        (self.filter_state.time_edit_mode || self.filter_state.active_field.on_time_field())
            && moves
    }

    /// Handles Delete on the topic list.
    fn press_topic_delete(&mut self) -> (effect: Effect)
        ensures
            old(self).wf() ==> final(self).wf(),
            old(self).topic_delete_pressed(*final(self), effect),
    {
        let topic: String = match self.topic_list_state.get_selected_topic() {
            Some(row) => row.topic.clone(),
            None => {
                return Effect::Nothing;
            },
        };
        if self.topic_list_state.delete_confirmation {
            self.pending = Pending::TopicDelete;
            Effect::DeleteTopic(topic)
        } else {
            self.topic_list_state.delete_confirmation = true;
            self.needs_full_redraw = true;
            Effect::Nothing
        }
    }

    /// Handles an event on the topic list.
    pub fn handle_topic_list_event(&mut self, event: &AppEvent) -> (effect: Effect)
        ensures
            old(self).wf() ==> final(self).wf(),
            old(self).topic_list_event_handled(*event, *final(self), effect),
    {
        if self.bar_takes_key(event) {
            let typed: bool = match event {
                AppEvent::Input(c) => true,
                AppEvent::Backspace => true,
                _ => false,
            };
            let redraw: bool = self.bar_redraws(event);
            let apply: bool = self.filter_state.handle_key(event);
            if redraw {
                self.needs_full_redraw = true;
            }
            if typed || apply {
                return self.refresh_data();
            }
            return Effect::Nothing;
        }
        match event {
            AppEvent::Tab => {
                if self.filter_state.is_editing {
                    self.filter_state.next_field();
                } else {
                    self.filter_state.active_field = FilterField::Topic;
                }
                self.filter_state.is_editing = true;
            },
            AppEvent::NavigateUp => {
                self.topic_list_state.move_up();
            },
            AppEvent::NavigateDown => {
                self.topic_list_state.move_down();
            },
            AppEvent::NavigateLeft => {
                self.navigate_back();
            },
            AppEvent::PageUp => {
                self.topic_list_state.page_up();
            },
            AppEvent::PageDown => {
                self.topic_list_state.page_down();
            },
            AppEvent::Home => {
                self.topic_list_state.move_to_top();
            },
            AppEvent::End => {
                self.topic_list_state.move_to_bottom();
            },
            AppEvent::Delete => {
                return self.press_topic_delete();
            },
            _ => {},
        }
        Effect::Nothing
    }

    /// Applies the filter bar: asks for fresh data.
    pub fn apply_filters(&mut self) -> (effect: Effect)
        ensures
            old(self).wf() ==> final(self).wf(),
            old(self).refreshed(*final(self), effect),
    {
        self.refresh_data()
    }

    /// Applies the input fields of the message list to its query and loads
    /// the first page, or reports a payload pattern that does not compile.
    pub fn apply_message_list_filters(&mut self) -> (effect: Effect)
        ensures
            old(self).wf() ==> final(self).wf(),
            exists|step: NavStep| #[trigger]
                old(self).message_list_state.filters_applied(final(self).message_list_state, step)
                    && old(self).step_issued(
                    final(self).message_list_state,
                    step,
                    *final(self),
                    effect,
                ),
    {
        let step = self.message_list_state.apply_filters();
        proof {
            if old(self).wf() {
                crate::list_keys::lemma_answer_step_is_sound(
                    old(self).message_list_state,
                    self.message_list_state,
                    step,
                    None,
                    None,
                );
            }
        }
        let effect = self.issue(step);
        assert(old(self).message_list_state.filters_applied(self.message_list_state, step) && old(self).step_issued(self.message_list_state, step, *self, effect));
        effect
    }

    /// Handles Escape.
    fn handle_escape(&mut self) -> (effect: Effect)
        ensures
            old(self).wf() ==> final(self).wf(),
            old(self).escape_handled(*final(self), effect),
    {
        if self.state == AppState::MessageList && self.message_list_state.is_editing {
            self.handle_message_list_event(&AppEvent::Escape)
        } else if self.filter_state.is_editing {
            self.filter_state.is_editing = false;
            Effect::Nothing
        } else if self.state == AppState::TopicList {
            Effect::Quit
        } else {
            self.navigate_back();
            Effect::Nothing
        }
    }

    /// Handles Enter.
    fn handle_enter(&mut self) -> (effect: Effect)
        ensures
            old(self).wf() ==> final(self).wf(),
            old(self).enter_handled(*final(self), effect),
    {
        if self.state == AppState::MessageList {
            self.handle_message_list_event(&AppEvent::Enter)
        } else if self.filter_state.is_editing {
            self.filter_state.is_editing = false;
            self.apply_filters()
        } else {
            self.navigate_forward()
        }
    }

    /// Handles an event, up to the point where the caller is needed.
    pub fn handle_event(&mut self, event: AppEvent) -> (effect: Effect)
        ensures
            old(self).wf() ==> final(self).wf(),
            old(self).event_handled(event, *final(self), effect),
    {
        self.pending = Pending::Idle;
        match &event {
            AppEvent::Delete => {},
            _ => {
                self.message_list_state.delete_confirmation = false;
                self.topic_list_state.delete_confirmation = false;
            },
        }
        assert(*self == old(self).facing(event));
        match &event {
            AppEvent::Quit => Effect::Quit,
            AppEvent::Copy => self.handle_copy(),
            AppEvent::Refresh => self.refresh_data(),
            AppEvent::Filter => {
                self.toggle_filter_mode();
                Effect::Nothing
            },
            AppEvent::Escape => self.handle_escape(),
            AppEvent::Enter => self.handle_enter(),
            AppEvent::QuickFilter(index) => self.handle_quick_filter(*index),
            _ => match self.state {
                AppState::TopicList => self.handle_topic_list_event(&event),
                AppState::MessageList => self.handle_message_list_event(&event),
                AppState::PayloadDetail => self.handle_payload_detail_event(&event),
                _ => Effect::Nothing,
            },
        }
    }

    /// Makes the marks show the names and colours of the rules and the
    /// switches of the list.
    fn sync_marks(&mut self)
        ensures
            old(self).wf() ==> final(self).wf(),
            marks_synced(
                old(self).status_bar_state,
                final(self).status_bar_state,
                *old(self),
                old(self).message_list_state,
            ),
            *final(self) == (App { status_bar_state: final(self).status_bar_state, ..*old(self) }),
    {
        if !self.config.quick_filters.enabled {
            return ;
        }
        let mut i: usize = 0;
        while i < self.status_bar_state.quick_filter_states.len() && i < 5
            invariant
                i <= self.status_bar_state.quick_filter_states@.len(),
                i <= 5,
                self.config.quick_filters.enabled,
                *self == (App { status_bar_state: self.status_bar_state, ..*old(self) }),
                self.status_bar_state == (StatusBarState {
                    quick_filter_states: self.status_bar_state.quick_filter_states,
                    ..old(self).status_bar_state
                }),
                self.status_bar_state.quick_filter_states@.len() == old(self).status_bar_state.quick_filter_states@.len(),
                forall|j: int|
                    0 <= j < i ==> if j < self.config.quick_filters.filters@.len() {
                        &&& (#[trigger] self.status_bar_state.quick_filter_states@[j]).0@
                            == self.config.quick_filters.filters@[j].name@
                        &&& self.status_bar_state.quick_filter_states@[j].1@
                            == self.config.quick_filters.filters@[j].color@
                        &&& self.status_bar_state.quick_filter_states@[j].2 == (j
                            < self.message_list_state.quick_filter_states@.len()
                            && self.message_list_state.quick_filter_states@[j])
                    } else {
                        self.status_bar_state.quick_filter_states@[j] == old(self).status_bar_state.quick_filter_states@[j]
                    },
                forall|j: int|
                    i <= j < self.status_bar_state.quick_filter_states@.len()
                        ==> #[trigger] self.status_bar_state.quick_filter_states@[j] == old(self).status_bar_state.quick_filter_states@[j],
            decreases 5 - i,
        {
            if i < self.config.quick_filters.filters.len() {
                let mark: (String, String, bool) = (
                    self.config.quick_filters.filters[i].name.clone(),
                    self.config.quick_filters.filters[i].color.clone(),
                    self.message_list_state.get_quick_filter_state(i),
                );
                self.status_bar_state.quick_filter_states.set(i, mark);
            }
            i = i + 1;
        }
    }

    /// Shows the message list of the topic that was entered.
    fn show_topic(&mut self)
        requires
            old(self).message_list_state.current_topic is Some,
        ensures
            old(self).wf() ==> final(self).wf(),
            old(self).topic_shown(*final(self)),
    {
        self.state = AppState::MessageList;
        self.needs_full_redraw = true;
        let topic: String = match &self.message_list_state.current_topic {
            Some(t) => t.clone(),
            None => String::new(),
        };
        StatusBar::set_help_text_for_view(
            &mut self.status_bar_state,
            &ViewType::MessageList(topic),
        );
        let ghost labelled = self.status_bar_state;
        self.sync_marks();
        assert(help_shown(
            old(self).status_bar_state,
            labelled,
            ViewType::MessageList(old(self).message_list_state.current_topic->0),
        ) && marks_synced(
            labelled,
            self.status_bar_state,
            *old(self),
            old(self).message_list_state,
        ));
    }

    /// Takes in the answer of the caller to the last [`Effect`] and goes on
    /// from there.
    pub fn resume(&mut self, reply: Reply) -> (effect: Effect)
        ensures
            old(self).wf() ==> final(self).wf(),
            old(self).resumed(reply, *final(self), effect),
    {
        let pending: Pending = self.pending;
        self.pending = Pending::Idle;
        let ghost idle = *self;
        match (pending, reply) {
            (Pending::Messages(then, fallback), Reply::Messages(answer)) => {
                let step = self.message_list_state.resume(then, fallback, answer);
                proof {
                    if old(self).wf() {
                        crate::list_keys::lemma_resumed_step_is_sound(
                            old(self).message_list_state,
                            self.message_list_state,
                            step,
                            then,
                            fallback,
                            answer,
                        );
                    }
                }
                let effect = self.issue(step);
                assert(old(self).message_list_state.resumed(
                    self.message_list_state,
                    step,
                    then,
                    fallback,
                    answer,
                ) && idle.step_issued(self.message_list_state, step, *self, effect));
                effect
            },
            (Pending::EnterTopic, Reply::Messages(answer)) => {
                match answer {
                    LoadReply::Failed => {},
                    LoadReply::Rows { page, all } => {
                        let ghost rows = page@;
                        let ghost counted = all@;
                        self.message_list_state.load_messages(page, all);
                        let ghost loaded = self.message_list_state;
                        if self.message_list_state.current_topic.is_some() {
                            self.show_topic();
                        }
                        assert(old(self).message_list_state.loaded(loaded, rows, counted));
                    },
                }
                Effect::Nothing
            },
            (Pending::Topics, Reply::Topics(answer)) => {
                match answer {
                    Some(topics) => {
                        self.status_bar_state.total_topics = topics.len();
                        self.topic_list_state.update_topics(topics);
                        self.status_bar_state.last_update = Some(utc_now());
                    },
                    None => {},
                }
                Effect::Nothing
            },
            (Pending::MessageDelete, Reply::MessageDeleted(success)) => {
                let step = self.message_list_state.deleted(success);
                proof {
                    if old(self).wf() {
                        crate::list_keys::lemma_answer_step_is_sound(
                            old(self).message_list_state,
                            self.message_list_state,
                            step,
                            None,
                            success,
                        );
                    }
                }
                let effect = self.issue(step);
                assert(old(self).message_list_state.deletion_answered(
                    self.message_list_state,
                    step,
                    success,
                ) && idle.step_issued(self.message_list_state, step, *self, effect));
                effect
            },
            (Pending::TopicDelete, Reply::TopicDeleted(count)) => {
                self.topic_list_state.delete_confirmation = false;
                if count.is_some() {
                    self.refresh_data()
                } else {
                    Effect::Nothing
                }
            },
            (Pending::Paste, Reply::Clipboard(text)) => {
                let ghost pasted = text;
                let step = self.message_list_state.paste(text);
                proof {
                    if old(self).wf() {
                        crate::list_keys::lemma_answer_step_is_sound(
                            old(self).message_list_state,
                            self.message_list_state,
                            step,
                            pasted,
                            None,
                        );
                    }
                }
                let effect = self.issue(step);
                assert(old(self).message_list_state.paste_answered(
                    self.message_list_state,
                    step,
                    pasted,
                ) && idle.step_issued(self.message_list_state, step, *self, effect));
                effect
            },
            _ => Effect::Nothing,
        }
    }

    /// Takes note that `key` is down at `now`. A key that was not held
    /// before is held from now on, and its request, if it has one, is to be
    /// handled at once.
    pub fn handle_key_repeat_start(&mut self, key: KeyCode, now: u64) -> (event: Option<AppEvent>)
        ensures
            old(self).key_repeat_state.current_key == Some(key) ==> *final(self) == *old(self)
                && event is None,
            old(self).key_repeat_state.current_key != Some(key) ==> *final(self) == (App {
                key_repeat_state: key_held(key, now),
                ..*old(self)
            }) && event == repeated_event(key),
    {
        if self.key_repeat_state.current_key == Some(key) {
            return None;
        }
        self.key_repeat_state = KeyRepeatState {
            current_key: Some(key),
            key_pressed_at: Some(now),
            last_repeat_at: None,
            is_repeating: false,
        };
        AppEvent::repeated(key)
    }

    /// Takes note that `key` is up: if it was the held key, no key is held
    /// any more.
    pub fn handle_key_release(&mut self, key: KeyCode)
        ensures
            *final(self) == (App {
                key_repeat_state: if old(self).key_repeat_state.current_key == Some(key) {
                    no_key_held()
                } else {
                    old(self).key_repeat_state
                },
                ..*old(self)
            }),
    {
        if self.key_repeat_state.current_key == Some(key) {
            self.key_repeat_state = KeyRepeatState {
                current_key: None,
                key_pressed_at: None,
                last_repeat_at: None,
                is_repeating: false,
            };
        }
    }

    /// Lets the held key repeat: returns its request when a repeat is due
    /// at `now`.
    pub fn handle_key_repeat(&mut self, now: u64) -> (event: Option<AppEvent>)
        ensures
            final(self).key_repeat_state == if old(self).key_repeat_state.repeat_due(now)
                && repeated_event(old(self).key_repeat_state.current_key->0) is Some {
                KeyRepeatState {
                    last_repeat_at: Some(now),
                    ..old(self).key_repeat_state.ripened(now)
                }
            } else {
                old(self).key_repeat_state.ripened(now)
            },
            *final(self) == (App { key_repeat_state: final(self).key_repeat_state, ..*old(self) }),
            event == if old(self).key_repeat_state.repeat_due(now) {
                repeated_event(old(self).key_repeat_state.current_key->0)
            } else {
                None
            },
    {
        let key: KeyCode = match self.key_repeat_state.current_key {
            Some(k) => k,
            None => {
                return None;
            },
        };
        let pressed_at: u64 = match self.key_repeat_state.key_pressed_at {
            Some(at) => at,
            None => {
                return None;
            },
        };
        if !self.key_repeat_state.is_repeating && now.saturating_sub(pressed_at)
            >= REPEAT_DELAY_MS {
            self.key_repeat_state.is_repeating = true;
            self.key_repeat_state.last_repeat_at = Some(now);
        }
        if self.key_repeat_state.is_repeating {
            let last: u64 = match self.key_repeat_state.last_repeat_at {
                Some(at) => at,
                None => pressed_at,
            };
            if now.saturating_sub(last) >= REPEAT_INTERVAL_MS {
                let event: Option<AppEvent> = AppEvent::repeated(key);
                if event.is_some() {
                    self.key_repeat_state.last_repeat_at = Some(now);
                }
                return event;
            }
        }
        None
    }
}

/// On the message list, a periodic refresh asks for rows exactly while the
/// list follows the newest message; otherwise it changes nothing.
pub proof fn lemma_refresh_follows_the_newest(pre: App, post: App, effect: Effect)
    requires
        pre.state == AppState::MessageList,
        pre.message_list_state.current_topic is Some,
        pre.refreshed(post, effect),
    ensures
        (effect is LoadMessages) == pre.message_list_state.follows_newest(),
        !pre.message_list_state.follows_newest() ==> post == pre && effect is Nothing,
        post.message_list_state.messages == pre.message_list_state.messages,
        post.message_list_state.selected_index == pre.message_list_state.selected_index,
        post.message_list_state.page == pre.message_list_state.page,
{
}

/// A first Delete on the message list deletes nothing.
pub proof fn lemma_first_delete_deletes_nothing(pre: App, post: App, effect: Effect)
    requires
        pre.state == AppState::MessageList,
        !pre.message_list_state.is_editing,
        !pre.message_list_state.delete_confirmation,
        pre.event_handled(AppEvent::Delete, post, effect),
    ensures
        effect is Nothing,
        post.message_list_state.messages == pre.message_list_state.messages,
        post.message_list_state.delete_confirmation == pre.message_list_state.has_selection(),
{
}

/// A second Delete on the message list asks for the deletion of the
/// selected message, and of that message only.
pub proof fn lemma_second_delete_deletes_the_selected(pre: App, post: App, effect: Effect)
    requires
        pre.state == AppState::MessageList,
        !pre.message_list_state.is_editing,
        pre.message_list_state.delete_confirmation,
        pre.message_list_state.has_selection(),
        pre.event_handled(AppEvent::Delete, post, effect),
    ensures
        effect == Effect::DeleteMessage(
            crate::list_keys::target_of(
                pre.message_list_state.messages@[pre.message_list_state.selected_index as int],
            ),
        ),
        post.pending == Pending::MessageDelete,
        post.message_list_state == pre.message_list_state,
{
}

/// Whatever the screen, an event other than Delete deletes nothing and
/// withdraws both delete confirmations.
pub proof fn lemma_other_events_delete_nothing(pre: App, event: AppEvent, post: App, effect: Effect)
    requires
        !(event is Delete),
        pre.event_handled(event, post, effect),
    ensures
        !(effect is DeleteMessage),
        !(effect is DeleteTopic),
        !post.message_list_state.delete_confirmation,
        !post.topic_list_state.delete_confirmation,
{
}

/// The answer to a deletion withdraws the confirmation, whatever the
/// answer.
pub proof fn lemma_deletion_answer_withdraws_confirmation(
    pre: App,
    success: Option<bool>,
    post: App,
    effect: Effect,
)
    requires
        pre.pending == Pending::MessageDelete,
        pre.resumed(Reply::MessageDeleted(success), post, effect),
    ensures
        !post.message_list_state.delete_confirmation,
        success != Some(true) ==> effect is Nothing && post.message_list_state
            == pre.message_list_state.unconfirmed(),
{
}

} // verus!
