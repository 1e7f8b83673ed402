use mqtt_log_viewer::events::{AppEvent, KeyCode, KeyPress};

fn down(code: KeyCode) -> KeyPress {
    KeyPress { code, control: false, alt: false, pressed: true }
}

#[test]
fn function_keys_map_to_their_requests() {
    for n in 1..=5u8 {
        assert!(matches!(
            AppEvent::from_key(down(KeyCode::F(n))),
            AppEvent::QuickFilter(i) if i == (n - 1) as usize
        ));
    }
    assert!(matches!(AppEvent::from_key(down(KeyCode::F(6))), AppEvent::Refresh));
    assert!(matches!(AppEvent::from_key(down(KeyCode::F(7))), AppEvent::JsonToggle));
    assert!(matches!(AppEvent::from_key(down(KeyCode::F(8))), AppEvent::Help));
    assert!(matches!(AppEvent::from_key(down(KeyCode::F(9))), AppEvent::Input('\0')));
    assert!(matches!(AppEvent::from_key(down(KeyCode::F(0))), AppEvent::Input('\0')));
}

#[test]
fn characters_are_input_but_for_a_few() {
    assert!(matches!(AppEvent::from_key(down(KeyCode::Char('a'))), AppEvent::Input('a')));
    assert!(matches!(AppEvent::from_key(down(KeyCode::Char('c'))), AppEvent::Input('c')));
    assert!(matches!(AppEvent::from_key(down(KeyCode::Char('v'))), AppEvent::Input('v')));
    assert!(matches!(AppEvent::from_key(down(KeyCode::Char('/'))), AppEvent::Filter));
    assert!(matches!(AppEvent::from_key(down(KeyCode::Char(' '))), AppEvent::Space));
    let ctrl = |c| KeyPress { code: KeyCode::Char(c), control: true, alt: false, pressed: true };
    let alt = |c| KeyPress { code: KeyCode::Char(c), control: false, alt: true, pressed: true };
    assert!(matches!(AppEvent::from_key(ctrl('c')), AppEvent::Copy));
    assert!(matches!(AppEvent::from_key(alt('c')), AppEvent::Copy));
    assert!(matches!(AppEvent::from_key(ctrl('v')), AppEvent::Paste(t) if t.is_empty()));
    assert!(matches!(AppEvent::from_key(alt('v')), AppEvent::Input('v')));
    assert!(matches!(AppEvent::from_key(ctrl('/')), AppEvent::Filter));
    assert!(matches!(AppEvent::from_key(ctrl('x')), AppEvent::Input('x')));
}

#[test]
fn named_keys_map_to_their_requests() {
    assert!(matches!(AppEvent::from_key(down(KeyCode::Tab)), AppEvent::Tab));
    assert!(matches!(AppEvent::from_key(down(KeyCode::Up)), AppEvent::NavigateUp));
    assert!(matches!(AppEvent::from_key(down(KeyCode::Down)), AppEvent::NavigateDown));
    assert!(matches!(AppEvent::from_key(down(KeyCode::Left)), AppEvent::NavigateLeft));
    assert!(matches!(AppEvent::from_key(down(KeyCode::Right)), AppEvent::NavigateRight));
    assert!(matches!(AppEvent::from_key(down(KeyCode::Enter)), AppEvent::Enter));
    assert!(matches!(AppEvent::from_key(down(KeyCode::Esc)), AppEvent::Escape));
    assert!(matches!(AppEvent::from_key(down(KeyCode::PageUp)), AppEvent::PageUp));
    assert!(matches!(AppEvent::from_key(down(KeyCode::PageDown)), AppEvent::PageDown));
    assert!(matches!(AppEvent::from_key(down(KeyCode::Home)), AppEvent::Home));
    assert!(matches!(AppEvent::from_key(down(KeyCode::End)), AppEvent::End));
    assert!(matches!(AppEvent::from_key(down(KeyCode::Backspace)), AppEvent::Backspace));
    assert!(matches!(AppEvent::from_key(down(KeyCode::Delete)), AppEvent::Delete));
    assert!(matches!(AppEvent::from_key(down(KeyCode::Other)), AppEvent::Input('\0')));
}

#[test]
fn a_key_that_goes_up_asks_nothing() {
    for code in [KeyCode::Enter, KeyCode::Char('q'), KeyCode::F(1), KeyCode::Delete] {
        let key = KeyPress { code, control: true, alt: true, pressed: false };
        assert!(matches!(AppEvent::from_key(key), AppEvent::Input('\0')));
    }
}

#[test]
fn only_the_keys_that_move_repeat() {
    assert!(matches!(AppEvent::repeated(KeyCode::Up), Some(AppEvent::NavigateUp)));
    assert!(matches!(AppEvent::repeated(KeyCode::Down), Some(AppEvent::NavigateDown)));
    assert!(matches!(AppEvent::repeated(KeyCode::PageUp), Some(AppEvent::PageUp)));
    assert!(matches!(AppEvent::repeated(KeyCode::PageDown), Some(AppEvent::PageDown)));
    assert!(AppEvent::repeated(KeyCode::Left).is_none());
    assert!(AppEvent::repeated(KeyCode::Char('x')).is_none());
}
