use navipod::keys::{action_for, action_for_key};
use navipod::{Action, InputEvent, Key, KeyKind};

fn press(key: Key) -> InputEvent {
    InputEvent::Key { key, kind: KeyKind::Press }
}

#[test]
fn key_table() {
    assert_eq!(action_for_key(Key::Char('q')), Action::Quit);
    assert_eq!(action_for_key(Key::Tab), Action::OuterNext);
    assert_eq!(action_for_key(Key::BackTab), Action::OuterPrevious);
    assert_eq!(action_for_key(Key::Down), Action::InnerNext);
    assert_eq!(action_for_key(Key::Char('j')), Action::InnerNext);
    assert_eq!(action_for_key(Key::Up), Action::InnerPrevious);
    assert_eq!(action_for_key(Key::Char('k')), Action::InnerPrevious);
}

#[test]
fn other_keys_do_nothing() {
    assert_eq!(action_for_key(Key::Other), Action::Nothing);
    for c in ['a', 'Q', 'J', 'K', 'x', ' ', '\t', '\n', '0', 'é'] {
        assert_eq!(action_for_key(Key::Char(c)), Action::Nothing);
    }
}

#[test]
fn pressed_keys_act() {
    assert_eq!(action_for(press(Key::Char('q'))), Action::Quit);
    assert_eq!(action_for(press(Key::Tab)), Action::OuterNext);
    assert_eq!(action_for(press(Key::BackTab)), Action::OuterPrevious);
    assert_eq!(action_for(press(Key::Down)), Action::InnerNext);
    assert_eq!(action_for(press(Key::Char('j'))), Action::InnerNext);
    assert_eq!(action_for(press(Key::Up)), Action::InnerPrevious);
    assert_eq!(action_for(press(Key::Char('k'))), Action::InnerPrevious);
    assert_eq!(action_for(press(Key::Other)), Action::Nothing);
}

#[test]
fn repeats_and_releases_do_nothing() {
    let keys = [
        Key::Char('q'),
        Key::Tab,
        Key::BackTab,
        Key::Down,
        Key::Up,
        Key::Char('j'),
        Key::Char('k'),
        Key::Other,
    ];
    for key in keys {
        assert_eq!(action_for(InputEvent::Key { key, kind: KeyKind::Repeat }), Action::Nothing);
        assert_eq!(action_for(InputEvent::Key { key, kind: KeyKind::Release }), Action::Nothing);
    }
}

#[test]
fn events_that_are_no_key_do_nothing() {
    assert_eq!(action_for(InputEvent::Other), Action::Nothing);
}
