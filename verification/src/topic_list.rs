//! The list of topics: a selection and a window that scrolls with it.

use crate::models::TopicStat;
use vstd::prelude::*;

verus! {

/// The state of the topic list.
#[derive(Debug)]
pub struct TopicListState {
    /// The topics, most recently active first.
    pub topics: Vec<TopicStat>,
    pub selected_index: usize,
    /// Index of the first row in the window.
    pub scroll_offset: usize,
    /// Height of the window.
    pub visible_rows: usize,
    /// A first Delete was pressed on the selected topic.
    pub delete_confirmation: bool,
}

/// The topic list struct; drawing it is left to the caller.
pub struct TopicListView;

/// The offset that keeps `selected` in a window of `visible` rows: the
/// window moves up to a selection above it, and down just far enough for a
/// selection below it.
pub open spec fn scrolled(selected: int, offset: int, visible: int) -> int {
    if selected < offset {
        selected
    } else if selected - offset >= visible {
        if visible >= 1 && selected >= visible - 1 {
            selected - (visible - 1)
        } else if visible >= 1 {
            0
        } else {
            selected
        }
    } else {
        offset
    }
}

/// The selection after new topics came in: the first topic when the list
/// was empty and is not any more, the last topic when the selection fell off
/// the end, and unmoved otherwise.
pub open spec fn reselected(selected: int, was_empty: bool, len: int) -> int {
    if was_empty && len > 0 {
        0
    } else if selected >= len && len > 0 {
        len - 1
    } else {
        selected
    }
}

/// The selection one window up.
pub open spec fn window_up(selected: int, visible: int) -> int {
    let jump = if visible >= 1 {
        visible - 1
    } else {
        0
    };
    if selected >= jump {
        selected - jump
    } else {
        0
    }
}

/// The selection one window down in a list of `len` topics.
pub open spec fn window_down(selected: int, visible: int, len: int) -> int {
    let jump = if visible >= 1 {
        visible - 1
    } else {
        0
    };
    if selected + jump < len {
        selected + jump
    } else if len >= 1 {
        len - 1
    } else {
        0
    }
}

impl TopicListState {
    /// `self` with the selection at `selected` and the window moved along.
    pub open spec fn selecting(self, selected: int) -> TopicListState {
        TopicListState {
            selected_index: selected as usize,
            scroll_offset: scrolled(
                selected,
                self.scroll_offset as int,
                self.visible_rows as int,
            ) as usize,
            ..self
        }
    }

    /// The selected topic is inside the window.
    pub open spec fn selection_visible(self) -> bool {
        self.scroll_offset <= self.selected_index < self.scroll_offset + self.visible_rows
    }

    /// The list after a key that moves the selection: up, down, a window
    /// up or down, to the first or to the last topic.
    pub open spec fn moved_up(self) -> TopicListState {
        if self.topics@.len() > 0 && self.selected_index > 0 {
            self.selecting(self.selected_index - 1)
        } else {
            self
        }
    }

    /// The list after a step down.
    pub open spec fn moved_down(self) -> TopicListState {
        if self.selected_index + 1 < self.topics@.len() {
            self.selecting(self.selected_index + 1)
        } else {
            self
        }
    }

    /// The list after a window up.
    pub open spec fn paged_up(self) -> TopicListState {
        self.selecting(window_up(self.selected_index as int, self.visible_rows as int))
    }

    /// The list after a window down.
    pub open spec fn paged_down(self) -> TopicListState {
        self.selecting(
            window_down(
                self.selected_index as int,
                self.visible_rows as int,
                self.topics@.len() as int,
            ),
        )
    }

    /// The list after Home.
    pub open spec fn at_top(self) -> TopicListState {
        if self.topics@.len() > 0 {
            self.selecting(0)
        } else {
            self
        }
    }

    /// The list after End.
    pub open spec fn at_bottom(self) -> TopicListState {
        if self.topics@.len() > 0 {
            self.selecting(self.topics@.len() - 1)
        } else {
            self
        }
    }

    /// A topic is selected.
    pub open spec fn has_selection(self) -> bool {
        self.selected_index < self.topics@.len()
    }

    /// Moves the window so that it holds the selection.
    fn adjust_scroll(&mut self)
        ensures
            *final(self) == old(self).selecting(old(self).selected_index as int),
    {
        if self.selected_index < self.scroll_offset {
            self.scroll_offset = self.selected_index;
        } else if self.selected_index - self.scroll_offset >= self.visible_rows {
            self.scroll_offset = self.selected_index.saturating_sub(
                self.visible_rows.saturating_sub(1),
            );
        }
    }

    /// Takes in a fresh list of topics.
    pub fn update_topics(&mut self, topics: Vec<TopicStat>)
        ensures
            *final(self) == (TopicListState { topics, ..*old(self) }).selecting(
                reselected(
                    old(self).selected_index as int,
                    old(self).topics@.len() == 0,
                    topics@.len() as int,
                ),
            ),
    {
        let was_empty: bool = self.topics.len() == 0;
        self.topics = topics;
        if was_empty && self.topics.len() > 0 {
            self.selected_index = 0;
            self.scroll_offset = 0;
            assert(scrolled(0, 0, self.visible_rows as int) == scrolled(
                0,
                old(self).scroll_offset as int,
                self.visible_rows as int,
            ));
        } else if self.selected_index >= self.topics.len() && self.topics.len() > 0 {
            self.selected_index = self.topics.len() - 1;
        }
        self.adjust_scroll();
    }

    /// Moves the selection one topic up.
    pub fn move_up(&mut self)
        ensures
            *final(self) == if old(self).topics@.len() > 0 && old(self).selected_index > 0 {
                old(self).selecting(old(self).selected_index - 1)
            } else {
                *old(self)
            },
    {
        if self.topics.len() == 0 {
            return ;
        }
        if self.selected_index > 0 {
            self.selected_index = self.selected_index - 1;
            self.adjust_scroll();
        }
    }

    /// Moves the selection one topic down.
    pub fn move_down(&mut self)
        ensures
            *final(self) == if old(self).selected_index + 1 < old(self).topics@.len() {
                old(self).selecting(old(self).selected_index + 1)
            } else {
                *old(self)
            },
    {
        if self.topics.len() == 0 {
            return ;
        }
        if self.selected_index < self.topics.len() - 1 {
            self.selected_index = self.selected_index + 1;
            self.adjust_scroll();
        }
    }

    /// Moves the selection one window up.
    pub fn page_up(&mut self)
        ensures
            *final(self) == old(self).selecting(
                window_up(old(self).selected_index as int, old(self).visible_rows as int),
            ),
    {
        let jump: usize = self.visible_rows.saturating_sub(1);
        if self.selected_index >= jump {
            self.selected_index = self.selected_index - jump;
        } else {
            self.selected_index = 0;
        }
        self.adjust_scroll();
    }

    /// Moves the selection one window down.
    pub fn page_down(&mut self)
        ensures
            *final(self) == old(self).selecting(
                window_down(
                    old(self).selected_index as int,
                    old(self).visible_rows as int,
                    old(self).topics@.len() as int,
                ),
            ),
    {
        let jump: usize = self.visible_rows.saturating_sub(1);
        let len: usize = self.topics.len();
        if self.selected_index < len && jump < len - self.selected_index {
            self.selected_index = self.selected_index + jump;
        } else {
            self.selected_index = len.saturating_sub(1);
        }
        self.adjust_scroll();
    }

    /// Selects the first topic, if there is one.
    pub fn move_to_top(&mut self)
        ensures
            *final(self) == if old(self).topics@.len() > 0 {
                old(self).selecting(0)
            } else {
                *old(self)
            },
    {
        if self.topics.len() > 0 {
            self.selected_index = 0;
            self.adjust_scroll();
        }
    }

    /// Selects the last topic, if there is one.
    pub fn move_to_bottom(&mut self)
        ensures
            *final(self) == if old(self).topics@.len() > 0 {
                old(self).selecting(old(self).topics@.len() - 1)
            } else {
                *old(self)
            },
    {
        if self.topics.len() > 0 {
            self.selected_index = self.topics.len() - 1;
            self.adjust_scroll();
        }
    }

    /// The selected topic, if the list has one there.
    pub fn get_selected_topic(&self) -> (row: Option<&TopicStat>)
        ensures
            row == if self.selected_index < self.topics@.len() {
                Some(&self.topics@[self.selected_index as int])
            } else {
                None
            },
    {
        if self.selected_index < self.topics.len() {
            Some(&self.topics[self.selected_index])
        } else {
            None
        }
    }

    /// Sets the height of the window and moves it to hold the selection.
    pub fn set_visible_rows(&mut self, rows: usize)
        ensures
            *final(self) == (TopicListState { visible_rows: rows, ..*old(self) }).selecting(
                old(self).selected_index as int,
            ),
    {
        self.visible_rows = rows;
        self.adjust_scroll();
    }

    /// A copy for the comparison with the next frame.
    pub fn snapshot(&self) -> (copy: TopicListState)
        ensures
            copy.topics@ == self.topics@,
            copy == (TopicListState { topics: copy.topics, ..*self }),
    {
        TopicListState {
            topics: crate::models::clone_topics(&self.topics),
            selected_index: self.selected_index,
            scroll_offset: self.scroll_offset,
            visible_rows: self.visible_rows,
            delete_confirmation: self.delete_confirmation,
        }
    }
}

impl Default for TopicListState {
    /// No topics, a window of ten rows.
    fn default() -> (list: Self)
        ensures
            list.topics@.len() == 0,
            list == (TopicListState {
                topics: list.topics,
                selected_index: 0,
                scroll_offset: 0,
                visible_rows: 10,
                delete_confirmation: false,
            }),
    {
        TopicListState {
            topics: Vec::new(),
            selected_index: 0,
            scroll_offset: 0,
            visible_rows: 10,
            delete_confirmation: false,
        }
    }
}

/// Wherever the selection goes, the window that moves along holds it, as
/// long as the window has a row at all.
pub proof fn lemma_selection_stays_visible(list: TopicListState, selected: int)
    requires
        0 <= selected <= usize::MAX,
        list.visible_rows >= 1,
    ensures
        list.selecting(selected).selection_visible(),
        list.selecting(selected).selected_index == selected,
{
}

/// A window that already holds the new selection does not move.
pub proof fn lemma_window_moves_only_when_needed(list: TopicListState, selected: int)
    requires
        0 <= selected <= usize::MAX,
        list.scroll_offset <= selected < list.scroll_offset + list.visible_rows,
    ensures
        list.selecting(selected).scroll_offset == list.scroll_offset,
{
}

} // verus!
