//! What the keyboard can ask of the viewer.

use vstd::prelude::*;

verus! {

/// A request to the viewer.
#[derive(Debug)]
pub enum AppEvent {
    Quit,
    Refresh,
    NavigateUp,
    NavigateDown,
    NavigateLeft,
    NavigateRight,
    Enter,
    Escape,
    Filter,
    JsonToggle,
    PageUp,
    PageDown,
    Home,
    End,
    Help,
    Copy,
    Tab,
    /// A character was typed; the null character stands for "nothing".
    Input(char),
    Backspace,
    Delete,
    /// Paste was asked for; the text is fetched from the clipboard later.
    Paste(String),
    Space,
    /// The quick filter of a slot, counted from 0, is to be switched.
    QuickFilter(usize),
}

/// The keys that the viewer tells apart.
#[derive(Clone, Copy, Debug, PartialEq, Eq, Structural)]
pub enum KeyCode {
    /// A function key, by its number.
    F(u8),
    Char(char),
    Tab,
    Up,
    Down,
    Left,
    Right,
    Enter,
    Esc,
    PageUp,
    PageDown,
    Home,
    End,
    Backspace,
    Delete,
    /// Any other key.
    Other,
}

/// One report of the keyboard.
#[derive(Clone, Copy, Debug, PartialEq, Eq, Structural)]
pub struct KeyPress {
    pub code: KeyCode,
    pub control: bool,
    pub alt: bool,
    /// The key went down; false for a release or a repeat report.
    pub pressed: bool,
}

/// The event that nothing reacts to.
pub open spec fn is_nothing(event: AppEvent) -> bool {
    event == AppEvent::Input('\0')
}

/// `event` is the request that `key` stands for. Only keys that go down
/// count. F1 to F5 switch the quick filters, F6 refreshes, F7 toggles JSON,
/// F8 asks for help; `/` opens the filter; Ctrl+C and Alt+C copy; Ctrl+V
/// pastes; the blank is the Space request; any other character is input.
pub open spec fn key_event(key: KeyPress, event: AppEvent) -> bool {
    if !key.pressed {
        is_nothing(event)
    } else {
        match key.code {
            KeyCode::F(n) => if 1 <= n <= 5 {
                event == AppEvent::QuickFilter((n - 1) as usize)
            } else if n == 6 {
                event is Refresh
            } else if n == 7 {
                event is JsonToggle
            } else if n == 8 {
                event is Help
            } else {
                is_nothing(event)
            },
            KeyCode::Char(c) => if c == '/' {
                event is Filter
            } else if c == 'c' && (key.control || key.alt) {
                event is Copy
            } else if c == 'v' && key.control {
                event matches AppEvent::Paste(text) && text@.len() == 0
            } else if c == ' ' {
                event is Space
            } else {
                event == AppEvent::Input(c)
            },
            KeyCode::Tab => event is Tab,
            KeyCode::Up => event is NavigateUp,
            KeyCode::Down => event is NavigateDown,
            KeyCode::Left => event is NavigateLeft,
            KeyCode::Right => event is NavigateRight,
            KeyCode::Enter => event is Enter,
            KeyCode::Esc => event is Escape,
            KeyCode::PageUp => event is PageUp,
            KeyCode::PageDown => event is PageDown,
            KeyCode::Home => event is Home,
            KeyCode::End => event is End,
            KeyCode::Backspace => event is Backspace,
            KeyCode::Delete => event is Delete,
            KeyCode::Other => is_nothing(event),
        }
    }
}

/// The request that a held key repeats: only the four keys that move
/// through a list repeat.
pub open spec fn repeated_event(key: KeyCode) -> Option<AppEvent> {
    match key {
        KeyCode::Up => Some(AppEvent::NavigateUp),
        KeyCode::Down => Some(AppEvent::NavigateDown),
        KeyCode::PageUp => Some(AppEvent::PageUp),
        KeyCode::PageDown => Some(AppEvent::PageDown),
        _ => None,
    }
}

/// The delta by which a key turns the digit wheel, for the keys that turn
/// it: the arrows by one, the page keys by ten, up being less.
pub open spec fn wheel_delta(event: AppEvent) -> Option<int> {
    match event {
        AppEvent::NavigateUp => Some(-1),
        AppEvent::NavigateDown => Some(1),
        AppEvent::PageUp => Some(-10),
        AppEvent::PageDown => Some(10),
        _ => None,
    }
}

impl AppEvent {
    /// The request that a report of the keyboard stands for.
    pub fn from_key(key: KeyPress) -> (event: AppEvent)
        ensures
            key_event(key, event),
    {
        if !key.pressed {
            return AppEvent::Input('\0');
        }
        match key.code {
            KeyCode::F(n) => {
                if 1 <= n && n <= 5 {
                    AppEvent::QuickFilter((n - 1) as usize)
                } else if n == 6 {
                    AppEvent::Refresh
                } else if n == 7 {
                    AppEvent::JsonToggle
                } else if n == 8 {
                    AppEvent::Help
                } else {
                    AppEvent::Input('\0')
                }
            },
            KeyCode::Char(c) => {
                if c == '/' {
                    AppEvent::Filter
                } else if c == 'c' && (key.control || key.alt) {
                    AppEvent::Copy
                } else if c == 'v' && key.control {
                    AppEvent::Paste(String::new())
                } else if c == ' ' {
                    AppEvent::Space
                } else {
                    AppEvent::Input(c)
                }
            },
            KeyCode::Tab => AppEvent::Tab,
            KeyCode::Up => AppEvent::NavigateUp,
            KeyCode::Down => AppEvent::NavigateDown,
            KeyCode::Left => AppEvent::NavigateLeft,
            KeyCode::Right => AppEvent::NavigateRight,
            KeyCode::Enter => AppEvent::Enter,
            KeyCode::Esc => AppEvent::Escape,
            KeyCode::PageUp => AppEvent::PageUp,
            KeyCode::PageDown => AppEvent::PageDown,
            KeyCode::Home => AppEvent::Home,
            KeyCode::End => AppEvent::End,
            KeyCode::Backspace => AppEvent::Backspace,
            KeyCode::Delete => AppEvent::Delete,
            KeyCode::Other => AppEvent::Input('\0'),
        }
    }

    /// The request that a held key repeats, if it repeats any.
    pub fn repeated(key: KeyCode) -> (event: Option<AppEvent>)
        ensures
            event == repeated_event(key),
    {
        match key {
            KeyCode::Up => Some(AppEvent::NavigateUp),
            KeyCode::Down => Some(AppEvent::NavigateDown),
            KeyCode::PageUp => Some(AppEvent::PageUp),
            KeyCode::PageDown => Some(AppEvent::PageDown),
            _ => None,
        }
    }
}

/// A key that does not go down asks for nothing, whatever the key.
pub proof fn lemma_release_asks_nothing(key: KeyPress, event: AppEvent)
    requires
        !key.pressed,
        key_event(key, event),
    ensures
        is_nothing(event),
{
}

} // verus!
