//! Keyboard input as the dispatcher sees it.

use vstd::prelude::*;

verus! {

/// A key, reduced to the distinctions the key bindings make.
///
/// Every key without a binding of its own is `Other`; a printable key is
/// `Char` with the character it produces.
#[derive(Clone, Copy, Debug, PartialEq, Eq, Structural)]
pub enum Key {
    Esc,
    Enter,
    Tab,
    BackTab,
    Left,
    Right,
    Up,
    Down,
    Char(char),
    Other,
}

/// Whether a key event reports a key going down, being held, or coming up.
#[derive(Clone, Copy, Debug, PartialEq, Eq, Structural)]
pub enum KeyEventKind {
    Press,
    Repeat,
    Release,
}

/// One event read from the terminal.
#[derive(Clone, Copy, Debug, PartialEq, Eq, Structural)]
pub struct KeyEvent {
    pub code: Key,
    pub kind: KeyEventKind,
}

/// The keys that close an overlay or, in base mode, open the menu.
pub open spec fn is_escape(key: Key) -> bool {
    key == Key::Esc
}

/// The keys that move a cursor or the selection one step down.
pub open spec fn is_down(key: Key) -> bool {
    key == Key::Down || key == Key::Char('j')
}

/// The keys that move a cursor or the selection one step up.
pub open spec fn is_up(key: Key) -> bool {
    key == Key::Up || key == Key::Char('k')
}

/// The keys that switch to the next tab of the options panel.
pub open spec fn is_next_tab(key: Key) -> bool {
    key == Key::Tab || key == Key::Right
}

/// The keys that switch to the previous tab of the options panel.
pub open spec fn is_previous_tab(key: Key) -> bool {
    key == Key::BackTab || key == Key::Left
}

/// The key that commits the highlighted entry of a list.
pub open spec fn is_confirm(key: Key) -> bool {
    key == Key::Enter
}

/// The keys that flip the highlighted option.
pub open spec fn is_toggle(key: Key) -> bool {
    key == Key::Enter || key == Key::Char(' ')
}

/// The key that opens the filter dropdown, and closes it again.
pub open spec fn is_dropdown_key(key: Key) -> bool {
    key == Key::Char('p')
}

/// The key that reloads the list.
pub open spec fn is_reload_key(key: Key) -> bool {
    key == Key::Char('r')
}

} // verus!
