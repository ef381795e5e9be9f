//! The modal layers above the list.
//!
//! At most one overlay is active at a time, so the overlay state is one value
//! of a sum type: each variant carries only the cursors that its layer needs.
//! There is no stack of overlays; closing one leads back to the list.

use vstd::prelude::*;

verus! {

/// Which overlay is active, without its cursors.
#[derive(Clone, Copy, Debug, PartialEq, Eq, Structural)]
pub enum OverlayKind {
    /// No overlay: the list itself has the keyboard.
    Closed,
    Menu,
    Dropdown,
    Options,
    Keybinds,
}

/// What the entries of the contextual menu do, in the order in which the
/// menu lists them.
#[derive(Clone, Copy, Debug, PartialEq, Eq, Structural)]
pub enum MenuEntry {
    /// Fetch the list again.
    Refresh,
    /// Open the options panel.
    Options,
    /// Open the key bindings popup.
    Keybinds,
    /// Leave the program.
    Quit,
}

/// The number of entries of the contextual menu.
pub const MENU_LEN: usize = 4;

/// The entry at position `index` of the contextual menu.
pub open spec fn menu_entry_at(index: int) -> MenuEntry {
    if index == 0 {
        MenuEntry::Refresh
    } else if index == 1 {
        MenuEntry::Options
    } else if index == 2 {
        MenuEntry::Keybinds
    } else {
        MenuEntry::Quit
    }
}

/// The entry at position `index` of the contextual menu, if it has one.
pub fn menu_entry(index: usize) -> (entry: Option<MenuEntry>)
    ensures
        index < MENU_LEN ==> entry == Some(menu_entry_at(index as int)),
        index >= MENU_LEN ==> entry is None,
{
    match index {
        0 => Some(MenuEntry::Refresh),
        1 => Some(MenuEntry::Options),
        2 => Some(MenuEntry::Keybinds),
        3 => Some(MenuEntry::Quit),
        _ => None,
    }
}

/// The active overlay with its cursors.
#[derive(Debug, PartialEq, Eq)]
pub enum Overlay {
    /// No overlay: the list itself has the keyboard.
    Closed,
    /// The contextual menu, with the position of its highlighted entry.
    Menu { cursor: usize },
    /// The filter dropdown, with the position of its highlighted filter.
    Dropdown { cursor: usize },
    /// The options panel: the tab that is shown, and for each tab the
    /// position of its highlighted option.
    Options { active_tab: usize, cursors: Vec<usize> },
    /// The key bindings popup.
    Keybinds,
}

/// An overlay as a mathematical value.
pub enum OverlayView {
    Closed,
    Menu { cursor: int },
    Dropdown { cursor: int },
    Options { active_tab: int, cursors: Seq<int> },
    Keybinds,
}

impl OverlayView {
    /// Which overlay this is.
    pub open spec fn kind(self) -> OverlayKind {
        match self {
            OverlayView::Closed => OverlayKind::Closed,
            OverlayView::Menu { .. } => OverlayKind::Menu,
            OverlayView::Dropdown { .. } => OverlayKind::Dropdown,
            OverlayView::Options { .. } => OverlayKind::Options,
            OverlayView::Keybinds => OverlayKind::Keybinds,
        }
    }

    /// The overlay of the given kind as it is when it opens: every cursor on
    /// the first entry, the first tab shown. `tabs` is the number of tabs of
    /// the options panel.
    pub open spec fn opened(kind: OverlayKind, tabs: int) -> OverlayView {
        match kind {
            OverlayKind::Closed => OverlayView::Closed,
            OverlayKind::Menu => OverlayView::Menu { cursor: 0 },
            OverlayKind::Dropdown => OverlayView::Dropdown { cursor: 0 },
            OverlayKind::Options => OverlayView::Options {
                active_tab: 0,
                cursors: Seq::new(tabs as nat, |i: int| 0int),
            },
            OverlayKind::Keybinds => OverlayView::Keybinds,
        }
    }
}

impl View for Overlay {
    type V = OverlayView;

    open spec fn view(&self) -> OverlayView {
        match *self {
            Overlay::Closed => OverlayView::Closed,
            Overlay::Menu { cursor } => OverlayView::Menu { cursor: cursor as int },
            Overlay::Dropdown { cursor } => OverlayView::Dropdown { cursor: cursor as int },
            Overlay::Options { active_tab, cursors } => OverlayView::Options {
                active_tab: active_tab as int,
                cursors: Seq::new(cursors@.len(), |i: int| cursors@[i] as int),
            },
            Overlay::Keybinds => OverlayView::Keybinds,
        }
    }
}

impl Overlay {
    /// Which overlay is active.
    pub fn kind(&self) -> (kind: OverlayKind)
        ensures
            kind == self@.kind(),
    {
        match self {
            Overlay::Closed => OverlayKind::Closed,
            Overlay::Menu { .. } => OverlayKind::Menu,
            Overlay::Dropdown { .. } => OverlayKind::Dropdown,
            Overlay::Options { .. } => OverlayKind::Options,
            Overlay::Keybinds => OverlayKind::Keybinds,
        }
    }

    /// The overlay of the given kind as it is when it opens, for an options
    /// panel of `tabs` tabs.
    pub fn open(kind: OverlayKind, tabs: usize) -> (overlay: Overlay)
        ensures
            overlay@ == OverlayView::opened(kind, tabs as int),
    {
        match kind {
            OverlayKind::Closed => Overlay::Closed,
            OverlayKind::Menu => Overlay::Menu { cursor: 0 },
            OverlayKind::Dropdown => Overlay::Dropdown { cursor: 0 },
            OverlayKind::Options => {
                let mut cursors: Vec<usize> = Vec::new();
                while cursors.len() < tabs
                    invariant
                        cursors.len() <= tabs,
                        forall|i: int| 0 <= i < cursors.len() ==> cursors[i] == 0,
                    decreases tabs - cursors.len(),
                {
                    cursors.push(0);
                }
                let overlay = Overlay::Options { active_tab: 0, cursors };
                assert(overlay@->Options_cursors =~= Seq::new(tabs as nat, |i: int| 0int));
                overlay
            },
            OverlayKind::Keybinds => Overlay::Keybinds,
        }
    }
}

} // verus!
