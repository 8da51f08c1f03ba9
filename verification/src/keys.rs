//! Input events and the key table that turns them into actions.

use vstd::prelude::*;

verus! {

/// A key, as far as the key table tells keys apart.
#[derive(Clone, Copy, Debug, PartialEq, Eq, Structural)]
pub enum Key {
    /// A character key.
    Char(char),
    /// Tab.
    Tab,
    /// Shift+Tab.
    BackTab,
    /// Arrow up.
    Up,
    /// Arrow down.
    Down,
    /// Any other key.
    Other,
}

/// What happened to a key.
#[derive(Clone, Copy, Debug, PartialEq, Eq, Structural)]
pub enum KeyKind {
    /// The key went down.
    Press,
    /// The key is held and repeats.
    Repeat,
    /// The key went up.
    Release,
}

/// One event from the input source.
#[derive(Clone, Copy, Debug, PartialEq, Eq, Structural)]
pub enum InputEvent {
    /// A key event.
    Key { key: Key, kind: KeyKind },
    /// Anything that is not a key event.
    Other,
}

/// What an event asks the dashboard to do.
#[derive(Clone, Copy, Debug, PartialEq, Eq, Structural)]
pub enum Action {
    /// Leave the event loop.
    Quit,
    /// Focus the next section.
    OuterNext,
    /// Focus the previous section.
    OuterPrevious,
    /// Select the next row of the focused section.
    InnerNext,
    /// Select the previous row of the focused section.
    InnerPrevious,
    /// Do nothing.
    Nothing,
}

/// The key table: `q` quits, Tab and Shift+Tab move between sections, Down
/// or `j` and Up or `k` move between rows, every other key does nothing.
pub open spec fn key_action(key: Key) -> Action {
    match key {
        Key::Char(c) => if c == 'q' {
            Action::Quit
        } else if c == 'j' {
            Action::InnerNext
        } else if c == 'k' {
            Action::InnerPrevious
        } else {
            Action::Nothing
        },
        Key::Tab => Action::OuterNext,
        Key::BackTab => Action::OuterPrevious,
        Key::Down => Action::InnerNext,
        Key::Up => Action::InnerPrevious,
        Key::Other => Action::Nothing,
    }
}

/// The action of an event: that of its key when a key was pressed, nothing
/// for a repeat, a release or an event that is no key event.
pub open spec fn event_action(event: InputEvent) -> Action {
    match event {
        InputEvent::Key { key, kind } => if kind == KeyKind::Press {
            key_action(key)
        } else {
            Action::Nothing
        },
        InputEvent::Other => Action::Nothing,
    }
}

/// A key the key table knows: one whose press does something.
pub open spec fn recognized(key: Key) -> bool {
    ||| key == Key::Char('q')
    ||| key == Key::Tab
    ||| key == Key::BackTab
    ||| key == Key::Down
    ||| key == Key::Char('j')
    ||| key == Key::Up
    ||| key == Key::Char('k')
}

/// The key table gives an action to the recognized keys and to no other
/// key; a repeat or a release asks for nothing, whatever the key.
pub proof fn lemma_key_table(key: Key, kind: KeyKind)
    ensures
        key_action(key) != Action::Nothing <==> recognized(key),
        event_action(InputEvent::Key { key, kind }) != Action::Nothing <==> recognized(key) && kind
            == KeyKind::Press,
        event_action(InputEvent::Key { key, kind }) == Action::Quit <==> key == Key::Char('q')
            && kind == KeyKind::Press,
{
}

/// Looks a key up in the key table.
pub fn action_for_key(key: Key) -> (action: Action)
    ensures
        action == key_action(key),
        action != Action::Nothing <==> recognized(key),
{
    match key {
        Key::Char(c) => {
            if c == 'q' {
                Action::Quit
            } else if c == 'j' {
                Action::InnerNext
            } else if c == 'k' {
                Action::InnerPrevious
            } else {
                Action::Nothing
            }
        },
        Key::Tab => Action::OuterNext,
        Key::BackTab => Action::OuterPrevious,
        Key::Down => Action::InnerNext,
        Key::Up => Action::InnerPrevious,
        Key::Other => Action::Nothing,
    }
}

/// The action that an event asks for.
pub fn action_for(event: InputEvent) -> (action: Action)
    ensures
        action == event_action(event),
{
    match event {
        InputEvent::Key { key, kind } => {
            match kind {
                KeyKind::Press => action_for_key(key),
                KeyKind::Repeat => Action::Nothing,
                KeyKind::Release => Action::Nothing,
            }
        },
        InputEvent::Other => Action::Nothing,
    }
}

} // verus!
