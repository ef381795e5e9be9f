//! What holds of the state whatever the user does: the laws of the
//! selection, of the overlays, of the dispatcher and of the quit flag.
//!
//! Each law is a proof over the model of the state in `state`, against which
//! the operations of `App` are specified.

use vstd::prelude::*;
use crate::cursor::Delta;
use crate::dispatch::{Action, binding, route};
use crate::error::ErrorView;
use crate::key::{Key, KeyEvent};
use crate::overlay::{OverlayKind, OverlayView};
use crate::state::{AppView, Command, DetailTicket, Frame};

verus! {

/// The state after a sequence of `move_selection` calls, each with its
/// direction and its time.
pub open spec fn after_moves<T, D>(s: AppView<T, D>, moves: Seq<(Delta, u64)>) -> AppView<T, D>
    decreases moves.len(),
{
    if moves.len() == 0 {
        s
    } else {
        after_moves(s, moves.drop_last()).selection_moved(moves.last().0, moves.last().1)
    }
}

/// Every action leads from a valid state to a valid state.
pub proof fn law_actions_keep_state_valid<T, D>(s: AppView<T, D>, action: Action, now: u64)
    requires
        s.wf(),
    ensures
        s.applied(action, now).0.wf(),
{
    let next = s.applied(action, now).0;
    match action {
        Action::CursorDown => {
            assert(s.cursor_moved(Delta::Forward).overlay_fits());
        },
        Action::CursorUp => {
            assert(s.cursor_moved(Delta::Backward).overlay_fits());
        },
        Action::ToggleOption => {
            assert(s.option_toggled().overlay_fits());
        },
        Action::NextTab => {
            law_tab_stays_in_ring(s, Delta::Forward);
        },
        Action::PreviousTab => {
            law_tab_stays_in_ring(s, Delta::Backward);
        },
        _ => {},
    }
}

/// Switching tabs keeps the shown tab among the tabs of the panel.
pub proof fn law_tab_stays_in_ring<T, D>(s: AppView<T, D>, delta: Delta)
    requires
        s.wf(),
    ensures
        s.tab_switched(delta).wf(),
{
    let n = s.options.len() as int;
    if n > 0 {
        match s.overlay {
            OverlayView::Options { active_tab, cursors } => {
                vstd::arithmetic::div_mod::lemma_mod_bound(active_tab + delta.offset(), n);
            },
            _ => {},
        }
    }
}

/// Every event that the frame loop hands in leads from a valid state to a
/// valid state: a key event, the start of a frame, a list or a failure, a
/// detail or a failure.
pub proof fn law_events_keep_state_valid<T, D>(
    s: AppView<T, D>,
    event: KeyEvent,
    items: Result<Seq<T>, ErrorView>,
    ticket: DetailTicket,
    detail: Result<D, ErrorView>,
    now: u64,
)
    requires
        s.wf(),
        items matches Ok(list) ==> list.len() <= usize::MAX,
    ensures
        s.event_handled(event, now).0.wf(),
        s.frame_begun(now).0.wf(),
        s.list_loaded(items, now).wf(),
        s.detail_loaded(ticket, detail).wf(),
{
    law_actions_keep_state_valid(s, route(s.overlay.kind(), event.code), now);
}

/// Selection bounds: after any sequence of `move_selection` calls the list
/// is the same, the state is valid, and the selection is a position of the
/// list wherever the list has one.
pub proof fn law_selection_stays_in_bounds<T, D>(s: AppView<T, D>, moves: Seq<(Delta, u64)>)
    requires
        s.wf(),
    ensures
        after_moves(s, moves).wf(),
        after_moves(s, moves).items == s.items,
        s.items.len() > 0 ==> 0 <= after_moves(s, moves).selected < s.items.len(),
    decreases moves.len(),
{
    if moves.len() > 0 {
        law_selection_stays_in_bounds(s, moves.drop_last());
    }
}

/// No wraparound: a step beyond either end of the list leaves the selection
/// at that end, and any other step moves it by one.
pub proof fn law_selection_clamps_at_ends<T, D>(s: AppView<T, D>, now: u64)
    requires
        s.wf(),
        s.items.len() > 0,
    ensures
        s.selection_moved(Delta::Forward, now).selected == if s.selected == s.items.len() - 1 {
            s.selected
        } else {
            s.selected + 1
        },
        s.selection_moved(Delta::Backward, now).selected == if s.selected == 0 {
            0
        } else {
            s.selected - 1
        },
{
}

/// Overlay exclusivity: in every state at most one of the menu, the
/// dropdown, the options panel and the key bindings popup is active.
pub proof fn law_overlays_exclude_each_other<T, D>(s: AppView<T, D>)
    ensures
        ({
            let menu: int = if s.overlay.kind() == OverlayKind::Menu { 1 } else { 0 };
            let dropdown: int = if s.overlay.kind() == OverlayKind::Dropdown { 1 } else { 0 };
            let options: int = if s.overlay.kind() == OverlayKind::Options { 1 } else { 0 };
            let keybinds: int = if s.overlay.kind() == OverlayKind::Keybinds { 1 } else { 0 };
            menu + dropdown + options + keybinds <= 1
        }),
        s.overlay.kind() == OverlayKind::Closed <==> s.overlay == OverlayView::Closed,
{
}

/// Opening an overlay makes it the active one, whatever was active before;
/// closing leads to no overlay, whatever was active before, and closing
/// twice is closing once.
pub proof fn law_open_and_close<T, D>(s: AppView<T, D>, kind: OverlayKind)
    ensures
        s.overlay_opened(kind).overlay.kind() == kind,
        s.overlay_closed().overlay == OverlayView::Closed,
        s.overlay_closed().overlay_closed() == s.overlay_closed(),
{
}

/// Every key that closes an overlay leads to no overlay at all, never to
/// an overlay that was open before.
pub proof fn law_closing_key_leads_to_list<T, D>(s: AppView<T, D>, key: Key, now: u64)
    requires
        route(s.overlay.kind(), key) == Action::CloseOverlay,
    ensures
        s.key_pressed(key, now).0.overlay == OverlayView::Closed,
        s.key_pressed(key, now).0 == s.overlay_closed(),
        s.key_pressed(key, now).1 == Command::Nothing,
{
}

/// Dispatcher totality: a key without a binding in the active overlay
/// resolves to `Ignore`, and the state after it is the state before it.
pub proof fn law_unbound_key_changes_nothing<T, D>(s: AppView<T, D>, key: Key, now: u64)
    requires
        binding(s.overlay.kind(), key) is None,
    ensures
        route(s.overlay.kind(), key) == Action::Ignore,
        s.key_pressed(key, now) == (s, Command::Nothing),
{
}

/// An overlay owns the keyboard: while one is active no key moves the
/// selection, replaces the list or touches the debounce timer.
pub proof fn law_overlay_swallows_keys<T, D>(s: AppView<T, D>, key: Key, now: u64)
    requires
        s.overlay.kind() != OverlayKind::Closed,
    ensures
        s.key_pressed(key, now).0.items == s.items,
        s.key_pressed(key, now).0.selected == s.selected,
        s.key_pressed(key, now).0.detail == s.detail,
        s.key_pressed(key, now).0.generation == s.generation,
        s.key_pressed(key, now).0.debounce == s.debounce,
{
}

/// The quit flag is one-way: no event clears it, and once it is set every
/// frame tells the loop to end.
pub proof fn law_quit_is_final<T, D>(
    s: AppView<T, D>,
    event: KeyEvent,
    items: Result<Seq<T>, ErrorView>,
    ticket: DetailTicket,
    detail: Result<D, ErrorView>,
    now: u64,
)
    requires
        s.quit,
    ensures
        s.event_handled(event, now).0.quit,
        s.list_loaded(items, now).quit,
        s.detail_loaded(ticket, detail).quit,
        s.frame_begun(now) == (s, Frame::Quit),
{
}

} // verus!
