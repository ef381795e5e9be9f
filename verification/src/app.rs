//! The state object of the application and the operations on it.
//!
//! None of the operations performs input or output, and none fails. What the
//! frame loop has to do outside (fetch the list, fetch a detail, show an item)
//! is handed back as a value; the outcome of a fetch comes in as an argument.

use vstd::prelude::*;
use crate::cursor::{Delta, in_list, step, step_ring};
use crate::debounce::{DEBOUNCE_INTERVAL_MS, Debounce};
use crate::dispatch::{Action, dispatch};
use crate::error::DealveError;
use crate::key::{Key, KeyEvent, KeyEventKind};
use crate::overlay::{MENU_LEN, MenuEntry, Overlay, OverlayKind, OverlayView, menu_entry};
use crate::state::{AppView, Command, DetailTicket, Frame};

verus! {

/// The state of the application: the list with its selection and detail, the
/// active overlay, the options, the filter, the debounce timer, the quit flag
/// and the recorded error.
///
/// `T` is the type of an item of the list and `D` the type of an item's
/// detail; the state only stores values of them.
pub struct App<T, D> {
    items: Vec<T>,
    selected: usize,
    detail: Option<D>,
    generation: u64,
    overlay: Overlay,
    options: Vec<Vec<bool>>,
    filters: Vec<Option<u32>>,
    filter: Option<u32>,
    debounce: Debounce,
    quit: bool,
    error: Option<DealveError>,
}

impl<T, D> View for App<T, D> {
    type V = AppView<T, D>;

    closed spec fn view(&self) -> AppView<T, D> {
        AppView {
            items: self.items@,
            selected: self.selected as int,
            detail: self.detail,
            generation: self.generation,
            overlay: self.overlay@,
            options: self.options.deep_view(),
            filters: self.filters@,
            filter: self.filter,
            debounce: self.debounce,
            quit: self.quit,
            error: match self.error {
                Some(error) => Some(error@),
                None => None,
            },
        }
    }
}

impl<T, D> App<T, D> {
    /// The state at start, with the reference quiet period: an empty list, no
    /// overlay, nothing pending. `filters` are the entries of the dropdown and
    /// `options` the toggles of each tab of the options panel.
    pub fn new(filters: Vec<Option<u32>>, options: Vec<Vec<bool>>) -> (app: App<T, D>)
        ensures
            app@ == AppView::<T, D>::initial(
                filters@,
                options.deep_view(),
                DEBOUNCE_INTERVAL_MS,
            ),
            app@.wf(),
    {
        App::with_interval(filters, options, DEBOUNCE_INTERVAL_MS)
    }

    /// The state at start, with a quiet period of `interval` milliseconds.
    pub fn with_interval(filters: Vec<Option<u32>>, options: Vec<Vec<bool>>, interval: u64) -> (app:
        App<T, D>)
        ensures
            app@ == AppView::<T, D>::initial(filters@, options.deep_view(), interval),
            app@.wf(),
    {
        App {
            items: Vec::new(),
            selected: 0,
            detail: None,
            generation: 0,
            overlay: Overlay::Closed,
            options,
            filters,
            filter: None,
            debounce: Debounce::new(interval),
            quit: false,
            error: None,
        }
    }

    /// What every selection-changing action does besides changing the
    /// selection.
    fn invalidate(&mut self, now: u64)
        ensures
            final(self)@ == old(self)@.invalidated(now),
    {
        self.detail = None;
        self.generation = if self.generation == u64::MAX {
            0
        } else {
            self.generation + 1
        };
        self.debounce.arm(now);
    }

    /// Replaces the list as a whole at time `now`. The first item becomes the
    /// selected one, the detail is invalidated, and a fresh quiet period
    /// begins, after which the detail of the new selection is fetched. A
    /// fetch that was pending for the old list is thereby superseded.
    pub fn set_items(&mut self, items: Vec<T>, now: u64)
        requires
            old(self)@.wf(),
        ensures
            final(self)@ == old(self)@.items_replaced(items@, now),
            final(self)@.wf(),
    {
        proof {
            vstd::std_specs::vec::axiom_spec_len(&items);
        }
        self.items = items;
        self.selected = 0;
        self.invalidate(now);
    }

    /// Moves the selection one step at time `now`, without wraparound: at
    /// either end of the list it stays there, and in an empty list it stays
    /// zero. The detail is invalidated and the quiet period starts over.
    pub fn move_selection(&mut self, delta: Delta, now: u64)
        requires
            old(self)@.wf(),
        ensures
            final(self)@ == old(self)@.selection_moved(delta, now),
            final(self)@.wf(),
    {
        self.selected = step(self.selected, self.items.len(), delta);
        self.invalidate(now);
    }

    /// Opens the overlay of the given kind in place of whatever was active:
    /// its cursors are on the first entry. `OverlayKind::Closed` closes.
    pub fn open_overlay(&mut self, kind: OverlayKind)
        requires
            old(self)@.wf(),
        ensures
            final(self)@ == old(self)@.overlay_opened(kind),
            final(self)@.overlay.kind() == kind,
            final(self)@.wf(),
    {
        self.overlay = Overlay::open(kind, self.options.len());
    }

    /// Closes the active overlay. Closing leads back to the list, never to
    /// an overlay that was open before; with no overlay open nothing changes.
    pub fn close_overlay(&mut self)
        requires
            old(self)@.wf(),
        ensures
            final(self)@ == old(self)@.overlay_closed(),
            final(self)@.overlay == OverlayView::Closed,
            final(self)@.wf(),
    {
        self.overlay = Overlay::Closed;
    }

    /// Moves the cursor of the active overlay one step, without wraparound.
    pub fn move_cursor(&mut self, delta: Delta)
        requires
            old(self)@.wf(),
        ensures
            final(self)@ == old(self)@.cursor_moved(delta),
            final(self)@.wf(),
    {
        match &mut self.overlay {
            Overlay::Menu { cursor } => {
                *cursor = step(*cursor, MENU_LEN, delta);
            },
            Overlay::Dropdown { cursor } => {
                *cursor = step(*cursor, self.filters.len(), delta);
            },
            Overlay::Options { active_tab, cursors } => {
                let tab: usize = *active_tab;
                if tab < cursors.len() && tab < self.options.len() {
                    let moved: usize = step(cursors[tab], self.options[tab].len(), delta);
                    cursors[tab] = moved;
                }
            },
            _ => {},
        }
        proof {
            let goal = old(self)@.cursor_moved(delta);
            match (self@.overlay, goal.overlay) {
                (
                    OverlayView::Options { cursors: got, .. },
                    OverlayView::Options { cursors: want, .. },
                ) => {
                    assert(got =~= want);
                },
                _ => {},
            }
        }
    }

    /// Shows the next or the previous tab of the options panel, wrapping
    /// round from the last tab to the first and back.
    pub fn switch_tab(&mut self, delta: Delta)
        requires
            old(self)@.wf(),
        ensures
            final(self)@ == old(self)@.tab_switched(delta),
            final(self)@.wf(),
    {
        match &mut self.overlay {
            Overlay::Options { active_tab, .. } => {
                *active_tab = step_ring(*active_tab, self.options.len(), delta);
            },
            _ => {},
        }
    }

    /// Flips the option that the options panel highlights. No cursor moves.
    pub fn toggle_current_option(&mut self)
        requires
            old(self)@.wf(),
        ensures
            final(self)@ == old(self)@.option_toggled(),
            final(self)@.wf(),
    {
        match &self.overlay {
            Overlay::Options { active_tab, cursors } => {
                let tab: usize = *active_tab;
                if tab < cursors.len() && tab < self.options.len() {
                    let place: usize = cursors[tab];
                    if place < self.options[tab].len() {
                        let value: bool = self.options[tab][place];
                        self.options[tab][place] = !value;
                        assert(self@.options =~~= old(self)@.option_toggled().options);
                    }
                }
            },
            _ => {},
        }
    }

    /// Carries out the highlighted entry of the menu and closes the menu.
    /// `Refresh` asks for the list to be fetched, `Options` and `Keybinds`
    /// open their overlay, `Quit` sets the quit flag.
    pub fn commit_menu(&mut self) -> (command: Command)
        requires
            old(self)@.wf(),
        ensures
            (final(self)@, command) == old(self)@.menu_committed(),
            final(self)@.wf(),
    {
        let cursor: usize = match &self.overlay {
            Overlay::Menu { cursor } => *cursor,
            _ => {
                return Command::Nothing;
            },
        };
        self.overlay = Overlay::Closed;
        match menu_entry(cursor) {
            Some(MenuEntry::Refresh) => Command::FetchList { shop_id: self.filter },
            Some(MenuEntry::Options) => {
                self.open_overlay(OverlayKind::Options);
                Command::Nothing
            },
            Some(MenuEntry::Keybinds) => {
                self.open_overlay(OverlayKind::Keybinds);
                Command::Nothing
            },
            Some(MenuEntry::Quit) => {
                self.quit = true;
                Command::Nothing
            },
            None => Command::Nothing,
        }
    }

    /// Puts the highlighted filter of the dropdown into force, closes the
    /// dropdown and asks for the list to be fetched with the new filter.
    pub fn commit_dropdown(&mut self) -> (command: Command)
        requires
            old(self)@.wf(),
        ensures
            (final(self)@, command) == old(self)@.dropdown_committed(),
            final(self)@.wf(),
    {
        let cursor: usize = match &self.overlay {
            Overlay::Dropdown { cursor } => *cursor,
            _ => {
                return Command::Nothing;
            },
        };
        self.overlay = Overlay::Closed;
        if cursor < self.filters.len() {
            let chosen: Option<u32> = self.filters[cursor];
            self.filter = chosen;
            Command::FetchList { shop_id: chosen }
        } else {
            Command::Nothing
        }
    }

    /// Carries out an action at time `now` and returns what the frame loop
    /// is to do for it. `Action::Ignore` changes nothing.
    pub fn apply(&mut self, action: Action, now: u64) -> (command: Command)
        requires
            old(self)@.wf(),
        ensures
            (final(self)@, command) == old(self)@.applied(action, now),
            action == Action::Ignore ==> final(self)@ == old(self)@ && command == Command::Nothing,
            final(self)@.wf(),
    {
        match action {
            Action::Ignore => Command::Nothing,
            Action::CloseOverlay => {
                self.close_overlay();
                Command::Nothing
            },
            Action::OpenMenu => {
                self.open_overlay(OverlayKind::Menu);
                Command::Nothing
            },
            Action::OpenDropdown => {
                self.open_overlay(OverlayKind::Dropdown);
                Command::Nothing
            },
            Action::NextTab => {
                self.switch_tab(Delta::Forward);
                Command::Nothing
            },
            Action::PreviousTab => {
                self.switch_tab(Delta::Backward);
                Command::Nothing
            },
            Action::CursorDown => {
                self.move_cursor(Delta::Forward);
                Command::Nothing
            },
            Action::CursorUp => {
                self.move_cursor(Delta::Backward);
                Command::Nothing
            },
            Action::ToggleOption => {
                self.toggle_current_option();
                Command::Nothing
            },
            Action::CommitMenu => self.commit_menu(),
            Action::CommitDropdown => self.commit_dropdown(),
            Action::SelectNext => {
                self.move_selection(Delta::Forward, now);
                Command::Nothing
            },
            Action::SelectPrevious => {
                self.move_selection(Delta::Backward, now);
                Command::Nothing
            },
            Action::OpenSelected => {
                if self.items.len() > 0 {
                    Command::OpenSelected { index: self.selected }
                } else {
                    Command::Nothing
                }
            },
            Action::Reload => Command::FetchList { shop_id: self.filter },
        }
    }

    /// Handles a key press at time `now`: resolves the key against the
    /// active overlay and carries the action out. A key without a binding in
    /// the active overlay changes nothing.
    pub fn on_key(&mut self, key: Key, now: u64) -> (command: Command)
        requires
            old(self)@.wf(),
        ensures
            (final(self)@, command) == old(self)@.key_pressed(key, now),
            final(self)@.wf(),
    {
        let action: Action = dispatch(self.overlay.kind(), key);
        self.apply(action, now)
    }

    /// Handles a key event at time `now`. Only a press is acted upon; a
    /// repeat or a release changes nothing.
    pub fn on_event(&mut self, event: KeyEvent, now: u64) -> (command: Command)
        requires
            old(self)@.wf(),
        ensures
            (final(self)@, command) == old(self)@.event_handled(event, now),
            final(self)@.wf(),
    {
        match event.kind {
            KeyEventKind::Press => self.on_key(event.code, now),
            _ => Command::Nothing,
        }
    }

    /// Polls the debounce timer at time `now`. Where a fetch is pending and
    /// the quiet period since the last selection change has passed, the fetch
    /// is issued, once, for the item that is selected at this moment; with an
    /// empty list it is skipped and only `pending` is cleared.
    pub fn take_due_detail(&mut self, now: u64) -> (fetch: Option<DetailTicket>)
        requires
            old(self)@.wf(),
        ensures
            (final(self)@, fetch) == old(self)@.detail_taken(now),
            final(self)@.wf(),
    {
        if self.debounce.take_due(now) {
            if self.items.len() > 0 {
                Some(DetailTicket { index: self.selected, generation: self.generation })
            } else {
                None
            }
        } else {
            None
        }
    }

    /// Begins a frame at time `now`, after the state has been drawn: tells
    /// the loop to end once the quit flag is set, and otherwise polls the
    /// debounce timer.
    pub fn begin_frame(&mut self, now: u64) -> (frame: Frame)
        requires
            old(self)@.wf(),
        ensures
            (final(self)@, frame) == old(self)@.frame_begun(now),
            final(self)@.wf(),
    {
        if self.quit {
            Frame::Quit
        } else {
            Frame::Poll { fetch: self.take_due_detail(now) }
        }
    }

    /// Takes the detail that a fetch brought, unless its ticket is stale:
    /// after a selection-changing action a result that was under way is
    /// discarded. Returns whether the detail was taken.
    pub fn apply_detail(&mut self, ticket: DetailTicket, detail: D) -> (taken: bool)
        requires
            old(self)@.wf(),
        ensures
            taken == old(self)@.accepts(ticket),
            final(self)@ == old(self)@.detail_applied(ticket, detail),
            final(self)@.wf(),
    {
        if self.is_current(ticket) {
            self.detail = Some(detail);
            true
        } else {
            false
        }
    }

    /// Whether `ticket` is for the selected item and no selection-changing
    /// action has happened since it was issued.
    pub fn is_current(&self, ticket: DetailTicket) -> (current: bool)
        ensures
            current == self@.accepts(ticket),
    {
        self.items.len() > 0 && ticket.index == self.selected && ticket.generation
            == self.generation
    }

    /// Takes the outcome of a list fetch that ended at time `now`. A failure
    /// is not fatal: it is recorded for display, and the list, the selection
    /// and the detail stay as they were.
    pub fn list_loaded(&mut self, outcome: Result<Vec<T>, DealveError>, now: u64)
        requires
            old(self)@.wf(),
        ensures
            final(self)@ == old(self)@.list_loaded(
                match outcome {
                    Ok(items) => Ok(items@),
                    Err(error) => Err(error@),
                },
                now,
            ),
            final(self)@.wf(),
    {
        match outcome {
            Ok(items) => {
                self.set_items(items, now);
                self.error = None;
            },
            Err(error) => {
                self.error = Some(error);
                self.debounce.arm(now);
            },
        }
    }

    /// Takes the outcome of the detail fetch issued under `ticket`. Under a
    /// stale ticket the outcome is discarded, a failure too. Returns whether
    /// the ticket was current.
    pub fn detail_loaded(&mut self, ticket: DetailTicket, outcome: Result<D, DealveError>) -> (taken:
        bool)
        requires
            old(self)@.wf(),
        ensures
            taken == old(self)@.accepts(ticket),
            final(self)@ == old(self)@.detail_loaded(
                ticket,
                match outcome {
                    Ok(detail) => Ok(detail),
                    Err(error) => Err(error@),
                },
            ),
            final(self)@.wf(),
    {
        if self.is_current(ticket) {
            match outcome {
                Ok(detail) => {
                    self.detail = Some(detail);
                    self.error = None;
                },
                Err(error) => {
                    self.error = Some(error);
                },
            }
            true
        } else {
            false
        }
    }

    /// Whether the state is valid: the selection and every cursor in range,
    /// and detail only where there is an item. Every state that `new` made
    /// and the operations changed is valid.
    pub fn is_valid(&self) -> (valid: bool)
        ensures
            valid == self@.wf(),
    {
        proof {
            vstd::std_specs::vec::axiom_spec_len(&self.items);
        }
        if self.selected != 0 && self.selected >= self.items.len() {
            return false;
        }
        if self.items.len() == 0 && self.detail.is_some() {
            return false;
        }
        match &self.overlay {
            Overlay::Closed => true,
            Overlay::Keybinds => true,
            Overlay::Menu { cursor } => *cursor < MENU_LEN,
            Overlay::Dropdown { cursor } => *cursor == 0 || *cursor < self.filters.len(),
            Overlay::Options { active_tab, cursors } => {
                if *active_tab != 0 && *active_tab >= self.options.len() {
                    return false;
                }
                if cursors.len() != self.options.len() {
                    return false;
                }
                let ghost shown = self@.overlay->Options_cursors;
                let mut tab: usize = 0;
                while tab < cursors.len()
                    invariant
                        tab <= cursors.len(),
                        cursors.len() == self.options.len(),
                        shown.len() == cursors.len(),
                        self@.overlay is Options,
                        self@.overlay->Options_cursors == shown,
                        self@.options.len() == self.options.len(),
                        forall|i: int|
                            0 <= i < cursors.len() ==> shown[i] == cursors[i] && self@.options[i]
                                == self.options[i]@,
                        forall|i: int|
                            0 <= i < tab ==> in_list(#[trigger] shown[i], self@.options[i].len() as int),
                    decreases cursors.len() - tab,
                {
                    if cursors[tab] != 0 && cursors[tab] >= self.options[tab].len() {
                        assert(!in_list(shown[tab as int], self@.options[tab as int].len() as int));
                        return false;
                    }
                    tab += 1;
                }
                true
            },
        }
    }

    /// The list.
    pub fn items(&self) -> (items: &Vec<T>)
        ensures
            items@ == self@.items,
    {
        &self.items
    }

    /// The position of the selected item; zero while the list is empty.
    pub fn selected_index(&self) -> (index: usize)
        ensures
            index == self@.selected,
    {
        self.selected
    }

    /// The selected item, where the list has one.
    pub fn selected_item(&self) -> (item: Option<&T>)
        ensures
            item == if self@.selected < self@.items.len() {
                Some(&self@.items[self@.selected])
            } else {
                None
            },
            self@.wf() ==> (item is Some <==> self@.items.len() > 0),
    {
        if self.selected < self.items.len() {
            Some(&self.items[self.selected])
        } else {
            None
        }
    }

    /// The detail of the selected item, once it has been fetched. After a
    /// selection change there is none until the next fetch has brought it.
    pub fn detail(&self) -> (detail: Option<&D>)
        ensures
            self@.detail is None ==> detail is None,
            self@.detail matches Some(held) ==> detail == Some(&held),
    {
        self.detail.as_ref()
    }

    /// The active overlay with its cursors.
    pub fn overlay(&self) -> (overlay: &Overlay)
        ensures
            overlay@ == self@.overlay,
    {
        &self.overlay
    }

    /// Which overlay is active.
    pub fn overlay_kind(&self) -> (kind: OverlayKind)
        ensures
            kind == self@.overlay.kind(),
    {
        self.overlay.kind()
    }

    /// The toggles of each tab of the options panel.
    pub fn options(&self) -> (options: &Vec<Vec<bool>>)
        ensures
            options.deep_view() == self@.options,
    {
        &self.options
    }

    /// The filters that the dropdown offers.
    pub fn filters(&self) -> (filters: &Vec<Option<u32>>)
        ensures
            filters@ == self@.filters,
    {
        &self.filters
    }

    /// The filter in force: a shop, or all shops.
    pub fn filter(&self) -> (filter: Option<u32>)
        ensures
            filter == self@.filter,
    {
        self.filter
    }

    /// The debounce timer.
    pub fn debounce(&self) -> (timer: Debounce)
        ensures
            timer == self@.debounce,
    {
        self.debounce
    }

    /// Whether a detail fetch is owed once the quiet period has passed.
    pub fn is_pending(&self) -> (pending: bool)
        ensures
            pending == self@.debounce.pending,
    {
        self.debounce.pending
    }

    /// Whether the program is to end. Once set the flag stays set.
    pub fn should_quit(&self) -> (quit: bool)
        ensures
            quit == self@.quit,
    {
        self.quit
    }

    /// The failure of the most recent fetch, if it failed.
    pub fn error(&self) -> (error: Option<&DealveError>)
        ensures
            self@.error is None ==> error is None,
            self@.error matches Some(held) ==> (error matches Some(e) && e@ == held),
    {
        self.error.as_ref()
    }
}

} // verus!
