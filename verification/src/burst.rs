//! The laws of the debounced detail fetch: a burst of selection changes
//! leads to one fetch, for the last selection; a reload supersedes a pending
//! fetch; a result that comes too late is discarded.

use vstd::prelude::*;
use crate::cursor::{Delta, step_clamped};
use crate::state::{AppView, DetailTicket, next_generation};

verus! {

/// One thing that happens to the selection and its timer: the user moves the
/// selection, or the frame loop polls the timer.
pub enum Step {
    /// `move_selection(delta, at)`.
    Move { delta: Delta, at: u64 },
    /// `take_due_detail(at)`.
    Tick { at: u64 },
}

impl Step {
    /// The time of the step.
    pub open spec fn at(self) -> u64 {
        match self {
            Step::Move { at, .. } => at,
            Step::Tick { at } => at,
        }
    }
}

/// The state after the steps, and the detail fetches issued on the way, in
/// the order of their issue.
pub open spec fn play<T, D>(s: AppView<T, D>, steps: Seq<Step>) -> (
    AppView<T, D>,
    Seq<DetailTicket>,
)
    decreases steps.len(),
{
    if steps.len() == 0 {
        (s, Seq::empty())
    } else {
        let (mid, issued) = play(s, steps.drop_last());
        match steps.last() {
            Step::Move { delta, at } => (mid.selection_moved(delta, at), issued),
            Step::Tick { at } => (
                mid.detail_taken(at).0,
                match mid.detail_taken(at).1 {
                    Some(ticket) => issued.push(ticket),
                    None => issued,
                },
            ),
        }
    }
}

/// The time of the last move among the steps, if there is a move.
pub open spec fn last_move_at(steps: Seq<Step>) -> Option<u64>
    decreases steps.len(),
{
    if steps.len() == 0 {
        None
    } else {
        match steps.last() {
            Step::Move { at, .. } => Some(at),
            Step::Tick { .. } => last_move_at(steps.drop_last()),
        }
    }
}

/// The selection after the moves among the steps, in a list of `len` items
/// and starting from `selected`.
pub open spec fn selection_after(selected: int, len: int, steps: Seq<Step>) -> int
    decreases steps.len(),
{
    if steps.len() == 0 {
        selected
    } else {
        let before = selection_after(selected, len, steps.drop_last());
        match steps.last() {
            Step::Move { delta, .. } => step_clamped(before, len, delta),
            Step::Tick { .. } => before,
        }
    }
}

/// The steps are one burst: time does not run backwards, and every move
/// comes strictly less than `interval` after the move before it.
pub open spec fn is_burst(steps: Seq<Step>, interval: u64) -> bool
    decreases steps.len(),
{
    if steps.len() <= 1 {
        true
    } else {
        let before = steps.drop_last();
        &&& is_burst(before, interval)
        &&& before.last().at() <= steps.last().at()
        &&& (steps.last() is Move ==> match last_move_at(before) {
            Some(previous) => steps.last().at() - previous < interval,
            None => true,
        })
    }
}

/// The timer was polled at least `interval` after the last move of the
/// steps: the quiet period after the burst has been seen to pass.
pub open spec fn quiet_seen(steps: Seq<Step>, interval: u64) -> bool
    decreases steps.len(),
{
    if steps.len() == 0 {
        false
    } else {
        let before = steps.drop_last();
        match steps.last() {
            Step::Move { .. } => false,
            Step::Tick { at } => quiet_seen(before, interval) || match last_move_at(before) {
                Some(last) => at >= last && at - last >= interval,
                None => false,
            },
        }
    }
}

/// What holds after every prefix of a burst.
spec fn burst_holds<T, D>(s: AppView<T, D>, steps: Seq<Step>) -> bool {
    let (end, issued) = play(s, steps);
    let quiet = quiet_seen(steps, s.debounce.interval);
    &&& last_move_at(steps) matches Some(last)
    &&& last <= steps.last().at()
    &&& (quiet ==> steps.last().at() - last >= s.debounce.interval)
    &&& end.wf()
    &&& end.items == s.items
    &&& end.selected == selection_after(s.selected, s.items.len() as int, steps)
    &&& end.debounce.interval == s.debounce.interval
    &&& end.debounce.last_change_at == last
    &&& end.debounce.pending == !quiet
    &&& issued.len() == if quiet { 1nat } else { 0nat }
    &&& (quiet ==> issued[0] == end.ticket())
}

proof fn lemma_burst<T, D>(s: AppView<T, D>, steps: Seq<Step>)
    requires
        s.wf(),
        s.items.len() > 0,
        steps.len() > 0,
        steps[0] is Move,
        is_burst(steps, s.debounce.interval),
    ensures
        burst_holds(s, steps),
    decreases steps.len(),
{
    let before = steps.drop_last();
    if steps.len() == 1 {
        assert(before.len() == 0);
        assert(play(s, before) == (s, Seq::<DetailTicket>::empty()));
        assert(last_move_at(before) is None);
        assert(selection_after(s.selected, s.items.len() as int, before) == s.selected);
    } else {
        assert(before[0] == steps[0]);
        lemma_burst(s, before);
    }
}

/// Debounce coalescing: in a burst of moves, each less than the quiet period
/// after the one before, with the timer polled at any times in between and
/// after, at most one detail fetch is issued. It is issued exactly if the
/// timer is polled once the quiet period after the last move has passed, and
/// it is for the selection after the last move, under a ticket that is
/// current at the end.
pub proof fn law_burst_yields_one_fetch<T, D>(s: AppView<T, D>, steps: Seq<Step>)
    requires
        s.wf(),
        s.items.len() > 0,
        steps.len() > 0,
        steps[0] is Move,
        is_burst(steps, s.debounce.interval),
    ensures
        ({
            let (end, issued) = play(s, steps);
            &&& issued.len() <= 1
            &&& issued.len() == 1 <==> quiet_seen(steps, s.debounce.interval)
            &&& end.selected == selection_after(s.selected, s.items.len() as int, steps)
            &&& issued.len() == 1 ==> issued[0].index == end.selected && end.accepts(issued[0])
            &&& end.debounce.pending <==> issued.len() == 0
        }),
{
    lemma_burst(s, steps);
}

/// In an empty list no detail fetch is ever issued, whatever the moves and
/// polls: there is no item to fetch for.
pub proof fn law_empty_list_issues_no_fetch<T, D>(s: AppView<T, D>, steps: Seq<Step>)
    requires
        s.wf(),
        s.items.len() == 0,
    ensures
        play(s, steps).1.len() == 0,
        play(s, steps).0.items.len() == 0,
        play(s, steps).0.selected == 0,
    decreases steps.len(),
{
    if steps.len() > 0 {
        law_empty_list_issues_no_fetch(s, steps.drop_last());
    }
}

/// The timer fires on the trailing edge only: a poll less than the quiet
/// period after a move issues nothing and changes nothing, and the first
/// poll after the quiet period issues the fetch for the selection of that
/// moment and leaves nothing pending, so that a later poll issues nothing.
pub proof fn law_fetch_waits_for_quiet<T, D>(
    s: AppView<T, D>,
    delta: Delta,
    moved_at: u64,
    polled_at: u64,
    later: u64,
)
    requires
        s.wf(),
        s.items.len() > 0,
        moved_at <= polled_at,
    ensures
        ({
            let moved = s.selection_moved(delta, moved_at);
            let (polled, fetch) = moved.detail_taken(polled_at);
            &&& polled_at - moved_at < s.debounce.interval ==> fetch is None && polled == moved
            &&& polled_at - moved_at >= s.debounce.interval ==> {
                &&& fetch == Some(moved.ticket())
                &&& moved.ticket().index == moved.selected
                &&& !polled.debounce.pending
                &&& polled.detail_taken(later) == (polled, None::<DetailTicket>)
            }
        }),
{
}

/// Debounce reset on reload: `set_items` makes every ticket issued before it
/// stale and starts the quiet period over, so that the next fetch is issued
/// no earlier than the quiet period after the reload and is for the first
/// item of the new list. For an empty list none is issued.
pub proof fn law_reload_supersedes_pending<T, D>(
    s: AppView<T, D>,
    items: Seq<T>,
    now: u64,
    polled_at: u64,
)
    requires
        s.wf(),
        items.len() <= usize::MAX,
        now <= polled_at,
    ensures
        ({
            let loaded = s.items_replaced(items, now);
            let (polled, fetch) = loaded.detail_taken(polled_at);
            &&& loaded.wf()
            &&& loaded.selected == 0
            &&& loaded.detail is None
            &&& loaded.debounce == s.debounce.armed(now)
            &&& !loaded.accepts(s.ticket())
            &&& fetch is Some <==> items.len() > 0 && polled_at - now >= s.debounce.interval
            &&& fetch matches Some(ticket) ==> ticket.index == 0 && loaded.accepts(ticket)
        }),
{
}

/// Stale-result rejection: a detail whose ticket is not for the selected
/// item, or was issued before the latest selection-changing action, is
/// discarded: the state stays as it is. A detail under a current ticket is
/// taken.
pub proof fn law_stale_detail_is_discarded<T, D>(s: AppView<T, D>, ticket: DetailTicket, detail: D)
    requires
        s.wf(),
    ensures
        ticket.index != s.selected ==> s.detail_applied(ticket, detail) == s,
        ticket.generation != s.generation ==> s.detail_applied(ticket, detail) == s,
        s.items.len() == 0 ==> s.detail_applied(ticket, detail) == s,
        s.accepts(ticket) ==> s.detail_applied(ticket, detail).detail == Some(detail),
{
}

/// A selection change between the issue of a fetch and its completion makes
/// the fetch stale: the ticket issued before a move or a reload is not
/// accepted after it.
pub proof fn law_selection_change_makes_ticket_stale<T, D>(
    s: AppView<T, D>,
    delta: Delta,
    items: Seq<T>,
    now: u64,
    detail: D,
)
    requires
        s.wf(),
    ensures
        !s.selection_moved(delta, now).accepts(s.ticket()),
        !s.items_replaced(items, now).accepts(s.ticket()),
        s.selection_moved(delta, now).detail_applied(s.ticket(), detail) == s.selection_moved(
            delta,
            now,
        ),
        s.items_replaced(items, now).detail_applied(s.ticket(), detail) == s.items_replaced(
            items,
            now,
        ),
{
    assert(next_generation(s.generation) != s.generation);
}

/// However many moves lie between the issue of a fetch and its completion,
/// its detail is not applied to a selection other than the one it is for.
pub proof fn law_detail_never_reaches_other_selection<T, D>(
    s: AppView<T, D>,
    moves: Seq<(Delta, u64)>,
    detail: D,
)
    requires
        s.wf(),
        crate::laws::after_moves(s, moves).selected != s.selected,
    ensures
        crate::laws::after_moves(s, moves).detail_applied(s.ticket(), detail)
            == crate::laws::after_moves(s, moves),
{
}

} // verus!
