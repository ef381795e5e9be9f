//! The input dispatcher: which action a key stands for, given the overlay
//! that owns the keyboard.
//!
//! The dispatcher only names an action. It reads nothing but the kind of the
//! active overlay and changes nothing; `App::apply` carries the action out.

use vstd::prelude::*;
use crate::key::{
    Key, is_confirm, is_down, is_dropdown_key, is_escape, is_next_tab, is_previous_tab,
    is_reload_key, is_toggle, is_up,
};
use crate::overlay::OverlayKind;

verus! {

/// What a key press asks for.
#[derive(Clone, Copy, Debug, PartialEq, Eq, Structural)]
pub enum Action {
    /// The key has no binding in the active overlay.
    Ignore,
    /// Close the active overlay.
    CloseOverlay,
    /// Open the contextual menu.
    OpenMenu,
    /// Open the filter dropdown.
    OpenDropdown,
    /// Options panel: go to the next tab, wrapping round.
    NextTab,
    /// Options panel: go to the previous tab, wrapping round.
    PreviousTab,
    /// Move the cursor of the active overlay one entry down.
    CursorDown,
    /// Move the cursor of the active overlay one entry up.
    CursorUp,
    /// Options panel: flip the highlighted option.
    ToggleOption,
    /// Menu: carry out the highlighted entry and close the menu.
    CommitMenu,
    /// Dropdown: adopt the highlighted filter, close the dropdown and reload.
    CommitDropdown,
    /// Base mode: select the next item of the list.
    SelectNext,
    /// Base mode: select the previous item of the list.
    SelectPrevious,
    /// Base mode: show the selected item in the external viewer.
    OpenSelected,
    /// Base mode: fetch the list again.
    Reload,
}

/// The binding of `key` while an overlay of kind `kind` is active, if it has one.
///
/// An overlay owns the keyboard: a key that the active overlay does not bind
/// is not looked up in base mode.
pub open spec fn binding(kind: OverlayKind, key: Key) -> Option<Action> {
    match kind {
        OverlayKind::Options => {
            if is_escape(key) {
                Some(Action::CloseOverlay)
            } else if is_next_tab(key) {
                Some(Action::NextTab)
            } else if is_previous_tab(key) {
                Some(Action::PreviousTab)
            } else if is_down(key) {
                Some(Action::CursorDown)
            } else if is_up(key) {
                Some(Action::CursorUp)
            } else if is_toggle(key) {
                Some(Action::ToggleOption)
            } else {
                None
            }
        },
        OverlayKind::Keybinds => {
            if is_escape(key) {
                Some(Action::CloseOverlay)
            } else {
                None
            }
        },
        OverlayKind::Menu => {
            if is_escape(key) {
                Some(Action::CloseOverlay)
            } else if is_down(key) {
                Some(Action::CursorDown)
            } else if is_up(key) {
                Some(Action::CursorUp)
            } else if is_confirm(key) {
                Some(Action::CommitMenu)
            } else {
                None
            }
        },
        OverlayKind::Dropdown => {
            if is_escape(key) || is_dropdown_key(key) {
                Some(Action::CloseOverlay)
            } else if is_down(key) {
                Some(Action::CursorDown)
            } else if is_up(key) {
                Some(Action::CursorUp)
            } else if is_confirm(key) {
                Some(Action::CommitDropdown)
            } else {
                None
            }
        },
        OverlayKind::Closed => {
            if is_escape(key) {
                Some(Action::OpenMenu)
            } else if is_down(key) {
                Some(Action::SelectNext)
            } else if is_up(key) {
                Some(Action::SelectPrevious)
            } else if is_dropdown_key(key) {
                Some(Action::OpenDropdown)
            } else if is_confirm(key) {
                Some(Action::OpenSelected)
            } else if is_reload_key(key) {
                Some(Action::Reload)
            } else {
                None
            }
        },
    }
}

/// The action that `key` resolves to: its binding, or `Ignore` where it has none.
pub open spec fn route(kind: OverlayKind, key: Key) -> Action {
    match binding(kind, key) {
        Some(action) => action,
        None => Action::Ignore,
    }
}

/// Resolves a key press to an action.
///
/// Total and deterministic: every pair of overlay kind and key has exactly
/// one action, and a pair without a binding has `Action::Ignore`.
pub fn dispatch(kind: OverlayKind, key: Key) -> (action: Action)
    ensures
        action == route(kind, key),
        binding(kind, key) is None ==> action == Action::Ignore,
{
    match kind {
        OverlayKind::Options => match key {
            Key::Esc => Action::CloseOverlay,
            Key::Tab | Key::Right => Action::NextTab,
            Key::BackTab | Key::Left => Action::PreviousTab,
            Key::Down | Key::Char('j') => Action::CursorDown,
            Key::Up | Key::Char('k') => Action::CursorUp,
            Key::Enter | Key::Char(' ') => Action::ToggleOption,
            _ => Action::Ignore,
        },
        OverlayKind::Keybinds => match key {
            Key::Esc => Action::CloseOverlay,
            _ => Action::Ignore,
        },
        OverlayKind::Menu => match key {
            Key::Esc => Action::CloseOverlay,
            Key::Down | Key::Char('j') => Action::CursorDown,
            Key::Up | Key::Char('k') => Action::CursorUp,
            Key::Enter => Action::CommitMenu,
            _ => Action::Ignore,
        },
        OverlayKind::Dropdown => match key {
            Key::Esc | Key::Char('p') => Action::CloseOverlay,
            Key::Down | Key::Char('j') => Action::CursorDown,
            Key::Up | Key::Char('k') => Action::CursorUp,
            Key::Enter => Action::CommitDropdown,
            _ => Action::Ignore,
        },
        OverlayKind::Closed => match key {
            Key::Esc => Action::OpenMenu,
            Key::Down | Key::Char('j') => Action::SelectNext,
            Key::Up | Key::Char('k') => Action::SelectPrevious,
            Key::Char('p') => Action::OpenDropdown,
            Key::Enter => Action::OpenSelected,
            Key::Char('r') => Action::Reload,
            _ => Action::Ignore,
        },
    }
}

} // verus!
