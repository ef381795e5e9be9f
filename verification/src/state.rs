//! The state of the application as a mathematical value, and what each
//! operation makes of it.
//!
//! `App` is specified against this model: each of its methods ends in the
//! state that the function of the same meaning gives here.

use vstd::prelude::*;
use crate::cursor::{Delta, in_list, step_clamped, step_wrapped};
use crate::debounce::Debounce;
use crate::dispatch::{Action, route};
use crate::error::ErrorView;
use crate::key::{Key, KeyEvent, KeyEventKind};
use crate::overlay::{MENU_LEN, MenuEntry, OverlayKind, OverlayView, menu_entry_at};

verus! {

/// What the frame loop is to do for the library after a key press.
#[derive(Clone, Copy, Debug, PartialEq, Eq, Structural)]
pub enum Command {
    /// Nothing: the key was handled inside the state, or ignored.
    Nothing,
    /// Fetch the list for the given shop, or for all shops, and hand the
    /// outcome to `App::list_loaded`.
    FetchList { shop_id: Option<u32> },
    /// Show the item at `index` in the external viewer.
    OpenSelected { index: usize },
}

/// The tag of one detail fetch: the selection that it is for.
///
/// A result is taken only while its ticket is current, that is while no
/// selection-changing action has happened since the ticket was issued.
#[derive(Clone, Copy, Debug, PartialEq, Eq, Structural)]
pub struct DetailTicket {
    /// The position of the item whose detail is fetched.
    pub index: usize,
    /// The count of selection changes at the time of issue.
    pub generation: u64,
}

/// What the frame loop is to do after drawing.
#[derive(Clone, Copy, Debug, PartialEq, Eq, Structural)]
pub enum Frame {
    /// Leave the loop.
    Quit,
    /// Perform the detail fetch, if one is given, and hand its outcome to
    /// `App::detail_loaded`; then wait for input, for at most the poll timeout.
    Poll { fetch: Option<DetailTicket> },
}

/// The generation after `generation`. It differs from it: the count starts
/// over at zero only after the largest value.
pub open spec fn next_generation(generation: u64) -> u64 {
    if generation == u64::MAX {
        0
    } else {
        (generation + 1) as u64
    }
}

/// The state of the application.
pub struct AppView<T, D> {
    /// The list, in the order in which the server sent it.
    pub items: Seq<T>,
    /// The position of the selected item; zero while the list is empty.
    pub selected: int,
    /// The detail of the selected item, once it has been fetched.
    pub detail: Option<D>,
    /// The count of selection-changing actions so far.
    pub generation: u64,
    /// The active overlay.
    pub overlay: OverlayView,
    /// The options: for each tab of the options panel, its toggles.
    pub options: Seq<Seq<bool>>,
    /// The filters that the dropdown offers: a shop, or all shops.
    pub filters: Seq<Option<u32>>,
    /// The filter in force.
    pub filter: Option<u32>,
    /// The debounce timer of the detail fetch.
    pub debounce: Debounce,
    /// Whether the program is to end.
    pub quit: bool,
    /// The failure of the most recent fetch, if it failed.
    pub error: Option<ErrorView>,
}

impl<T, D> AppView<T, D> {
    /// The cursors of the active overlay lie inside the lists that they
    /// point into.
    pub open spec fn overlay_fits(self) -> bool {
        match self.overlay {
            OverlayView::Closed => true,
            OverlayView::Keybinds => true,
            OverlayView::Menu { cursor } => 0 <= cursor < MENU_LEN,
            OverlayView::Dropdown { cursor } => in_list(cursor, self.filters.len() as int),
            OverlayView::Options { active_tab, cursors } => {
                &&& in_list(active_tab, self.options.len() as int)
                &&& cursors.len() == self.options.len()
                &&& forall|i: int|
                    0 <= i < cursors.len() ==> in_list(
                        #[trigger] cursors[i],
                        self.options[i].len() as int,
                    )
            },
        }
    }

    /// The invariant of the state: the selection and every cursor are in
    /// range, and there is detail only where there is an item.
    pub open spec fn wf(self) -> bool {
        &&& self.items.len() <= usize::MAX
        &&& in_list(self.selected, self.items.len() as int)
        &&& (self.items.len() == 0 ==> self.detail is None)
        &&& self.overlay_fits()
    }

    /// The state at start: an empty list, no overlay, nothing pending.
    pub open spec fn initial(
        filters: Seq<Option<u32>>,
        options: Seq<Seq<bool>>,
        interval: u64,
    ) -> AppView<T, D> {
        AppView {
            items: Seq::empty(),
            selected: 0,
            detail: None,
            generation: 0,
            overlay: OverlayView::Closed,
            options,
            filters,
            filter: None,
            debounce: Debounce { interval, last_change_at: 0, pending: false },
            quit: false,
            error: None,
        }
    }

    /// The state after a selection-changing action at `now`, before the
    /// selection itself is changed: the detail is forgotten, tickets issued
    /// so far are no longer current, and the quiet period starts over.
    pub open spec fn invalidated(self, now: u64) -> AppView<T, D> {
        AppView {
            detail: None,
            generation: next_generation(self.generation),
            debounce: self.debounce.armed(now),
            ..self
        }
    }

    /// The state after `move_selection`: the selection moves one step,
    /// clamped at the ends of the list, and stays where it is in an empty
    /// list. In every case the detail is invalidated and the timer armed.
    pub open spec fn selection_moved(self, delta: Delta, now: u64) -> AppView<T, D> {
        AppView {
            selected: step_clamped(self.selected, self.items.len() as int, delta),
            ..self.invalidated(now)
        }
    }

    /// The state after `set_items`: the list is replaced as a whole, the
    /// first item is selected, the detail is invalidated and the timer armed.
    pub open spec fn items_replaced(self, items: Seq<T>, now: u64) -> AppView<T, D> {
        AppView { items, selected: 0, ..self.invalidated(now) }
    }

    /// The state after `open_overlay`: the overlay of the given kind in its
    /// opening position takes the place of whatever was active.
    pub open spec fn overlay_opened(self, kind: OverlayKind) -> AppView<T, D> {
        AppView { overlay: OverlayView::opened(kind, self.options.len() as int), ..self }
    }

    /// The state after `close_overlay`: no overlay is active.
    pub open spec fn overlay_closed(self) -> AppView<T, D> {
        AppView { overlay: OverlayView::Closed, ..self }
    }

    /// The state after `move_cursor`: the cursor of the active overlay moves
    /// one step, clamped at the ends of its list. In the options panel it is
    /// the cursor of the tab shown. Without a cursor nothing changes.
    pub open spec fn cursor_moved(self, delta: Delta) -> AppView<T, D> {
        match self.overlay {
            OverlayView::Menu { cursor } => AppView {
                overlay: OverlayView::Menu { cursor: step_clamped(cursor, MENU_LEN as int, delta) },
                ..self
            },
            OverlayView::Dropdown { cursor } => AppView {
                overlay: OverlayView::Dropdown {
                    cursor: step_clamped(cursor, self.filters.len() as int, delta),
                },
                ..self
            },
            OverlayView::Options { active_tab, cursors } => {
                if 0 <= active_tab < cursors.len() && active_tab < self.options.len() {
                    AppView {
                        overlay: OverlayView::Options {
                            active_tab,
                            cursors: cursors.update(
                                active_tab,
                                step_clamped(
                                    cursors[active_tab],
                                    self.options[active_tab].len() as int,
                                    delta,
                                ),
                            ),
                        },
                        ..self
                    }
                } else {
                    self
                }
            },
            _ => self,
        }
    }

    /// The state after `switch_tab`: in the options panel the next or the
    /// previous tab is shown, wrapping round. Elsewhere nothing changes.
    pub open spec fn tab_switched(self, delta: Delta) -> AppView<T, D> {
        match self.overlay {
            OverlayView::Options { active_tab, cursors } => AppView {
                overlay: OverlayView::Options {
                    active_tab: step_wrapped(active_tab, self.options.len() as int, delta),
                    cursors,
                },
                ..self
            },
            _ => self,
        }
    }

    /// The position of the highlighted option, as tab and place in the tab,
    /// where the options panel is open and highlights one.
    pub open spec fn current_option(self) -> Option<(int, int)> {
        match self.overlay {
            OverlayView::Options { active_tab, cursors } => {
                if 0 <= active_tab < cursors.len() && active_tab < self.options.len() && 0
                    <= cursors[active_tab] < self.options[active_tab].len() {
                    Some((active_tab, cursors[active_tab]))
                } else {
                    None
                }
            },
            _ => None,
        }
    }

    /// The state after `toggle_current_option`: the highlighted option is
    /// flipped; every cursor stays. Without a highlighted option nothing
    /// changes.
    pub open spec fn option_toggled(self) -> AppView<T, D> {
        match self.current_option() {
            Some((tab, place)) => AppView {
                options: self.options.update(
                    tab,
                    self.options[tab].update(place, !self.options[tab][place]),
                ),
                ..self
            },
            None => self,
        }
    }

    /// The state after `commit_menu`, and the command that goes with it: the
    /// menu closes and its highlighted entry is carried out. Without an open
    /// menu nothing happens.
    pub open spec fn menu_committed(self) -> (AppView<T, D>, Command) {
        match self.overlay {
            OverlayView::Menu { cursor } => {
                let closed = self.overlay_closed();
                match menu_entry_at(cursor) {
                    MenuEntry::Refresh => (closed, Command::FetchList { shop_id: self.filter }),
                    MenuEntry::Options => (
                        closed.overlay_opened(OverlayKind::Options),
                        Command::Nothing,
                    ),
                    MenuEntry::Keybinds => (
                        closed.overlay_opened(OverlayKind::Keybinds),
                        Command::Nothing,
                    ),
                    MenuEntry::Quit => (AppView { quit: true, ..closed }, Command::Nothing),
                }
            },
            _ => (self, Command::Nothing),
        }
    }

    /// The state after `commit_dropdown`, and the command that goes with it:
    /// the dropdown closes, the highlighted filter comes into force and the
    /// list is fetched with it. A dropdown without filters only closes.
    /// Without an open dropdown nothing happens.
    pub open spec fn dropdown_committed(self) -> (AppView<T, D>, Command) {
        match self.overlay {
            OverlayView::Dropdown { cursor } => {
                if 0 <= cursor < self.filters.len() {
                    (
                        AppView { filter: self.filters[cursor], ..self.overlay_closed() },
                        Command::FetchList { shop_id: self.filters[cursor] },
                    )
                } else {
                    (self.overlay_closed(), Command::Nothing)
                }
            },
            _ => (self, Command::Nothing),
        }
    }

    /// The command that shows the selected item, where there is one.
    pub open spec fn open_selected(self) -> Command {
        if self.items.len() > 0 {
            Command::OpenSelected { index: self.selected as usize }
        } else {
            Command::Nothing
        }
    }

    /// The state after an action at `now`, and the command that goes with it.
    pub open spec fn applied(self, action: Action, now: u64) -> (AppView<T, D>, Command) {
        match action {
            Action::Ignore => (self, Command::Nothing),
            Action::CloseOverlay => (self.overlay_closed(), Command::Nothing),
            Action::OpenMenu => (self.overlay_opened(OverlayKind::Menu), Command::Nothing),
            Action::OpenDropdown => (self.overlay_opened(OverlayKind::Dropdown), Command::Nothing),
            Action::NextTab => (self.tab_switched(Delta::Forward), Command::Nothing),
            Action::PreviousTab => (self.tab_switched(Delta::Backward), Command::Nothing),
            Action::CursorDown => (self.cursor_moved(Delta::Forward), Command::Nothing),
            Action::CursorUp => (self.cursor_moved(Delta::Backward), Command::Nothing),
            Action::ToggleOption => (self.option_toggled(), Command::Nothing),
            Action::CommitMenu => self.menu_committed(),
            Action::CommitDropdown => self.dropdown_committed(),
            Action::SelectNext => (self.selection_moved(Delta::Forward, now), Command::Nothing),
            Action::SelectPrevious => (
                self.selection_moved(Delta::Backward, now),
                Command::Nothing,
            ),
            Action::OpenSelected => (self, self.open_selected()),
            Action::Reload => (self, Command::FetchList { shop_id: self.filter }),
        }
    }

    /// The state after a key press at `now`, and the command that goes with
    /// it: the key is resolved against the active overlay, and the action
    /// carried out.
    pub open spec fn key_pressed(self, key: Key, now: u64) -> (AppView<T, D>, Command) {
        self.applied(route(self.overlay.kind(), key), now)
    }

    /// The state after a key event at `now`, and the command that goes with
    /// it. Only a press is acted upon.
    pub open spec fn event_handled(self, event: KeyEvent, now: u64) -> (AppView<T, D>, Command) {
        if event.kind == KeyEventKind::Press {
            self.key_pressed(event.code, now)
        } else {
            (self, Command::Nothing)
        }
    }

    /// The ticket of a detail fetch issued in this state.
    pub open spec fn ticket(self) -> DetailTicket {
        DetailTicket { index: self.selected as usize, generation: self.generation }
    }

    /// The state after the timer is polled at `now`, and the fetch to issue.
    /// Where the timer is due, nothing is pending afterwards, and the fetch is
    /// for the item selected at this moment; an empty list has no item to
    /// fetch for. Where it is not due, nothing changes.
    pub open spec fn detail_taken(self, now: u64) -> (AppView<T, D>, Option<DetailTicket>) {
        if self.debounce.due(now) {
            (
                AppView { debounce: self.debounce.polled(now), ..self },
                if self.items.len() > 0 {
                    Some(self.ticket())
                } else {
                    None
                },
            )
        } else {
            (self, None)
        }
    }

    /// The state after `begin_frame` at `now`, and what the loop is to do.
    /// Once the quit flag is set the loop ends and the timer is not polled.
    pub open spec fn frame_begun(self, now: u64) -> (AppView<T, D>, Frame) {
        if self.quit {
            (self, Frame::Quit)
        } else {
            (self.detail_taken(now).0, Frame::Poll { fetch: self.detail_taken(now).1 })
        }
    }

    /// Whether `ticket` is current: it is for the item that is selected, and
    /// no selection-changing action has happened since it was issued.
    pub open spec fn accepts(self, ticket: DetailTicket) -> bool {
        &&& self.items.len() > 0
        &&& ticket.index == self.selected
        &&& ticket.generation == self.generation
    }

    /// The state after `apply_detail`: the detail is taken where the ticket
    /// is current, and discarded where it is stale.
    pub open spec fn detail_applied(self, ticket: DetailTicket, detail: D) -> AppView<T, D> {
        if self.accepts(ticket) {
            AppView { detail: Some(detail), ..self }
        } else {
            self
        }
    }

    /// The state after a list fetch ended at `now`. A list replaces the old
    /// one and clears the recorded error. A failure is recorded and leaves
    /// the list, the selection and the detail as they were. Either way the
    /// timer is armed.
    pub open spec fn list_loaded(self, outcome: Result<Seq<T>, ErrorView>, now: u64) -> AppView<
        T,
        D,
    > {
        match outcome {
            Ok(items) => AppView { error: None, ..self.items_replaced(items, now) },
            Err(error) => AppView {
                error: Some(error),
                debounce: self.debounce.armed(now),
                ..self
            },
        }
    }

    /// The state after a detail fetch ended. Under a current ticket the
    /// detail is taken and the recorded error cleared, or the failure is
    /// recorded. Under a stale ticket the outcome is discarded.
    pub open spec fn detail_loaded(
        self,
        ticket: DetailTicket,
        outcome: Result<D, ErrorView>,
    ) -> AppView<T, D> {
        if self.accepts(ticket) {
            match outcome {
                Ok(detail) => AppView { detail: Some(detail), error: None, ..self },
                Err(error) => AppView { error: Some(error), ..self },
            }
        } else {
            self
        }
    }
}

} // verus!
