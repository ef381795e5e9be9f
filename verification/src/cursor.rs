//! Stepping an index through a list: clamped at the ends for cursors and the
//! selection, wrapping round for tabs.

use vstd::prelude::*;
use vstd::arithmetic::div_mod::{lemma_fundamental_div_mod, lemma_fundamental_div_mod_converse};

verus! {

/// One step through a list.
#[derive(Clone, Copy, Debug, PartialEq, Eq, Structural)]
pub enum Delta {
    /// Towards the end of the list: `+1`.
    Forward,
    /// Towards the start of the list: `-1`.
    Backward,
}

impl Delta {
    /// The step as a number: `+1` or `-1`.
    pub open spec fn offset(self) -> int {
        match self {
            Delta::Forward => 1,
            Delta::Backward => -1,
        }
    }
}

/// `x`, or the nearer of `lo` and `hi` where `x` lies outside them.
pub open spec fn clamp(x: int, lo: int, hi: int) -> int {
    if x < lo {
        lo
    } else if x > hi {
        hi
    } else {
        x
    }
}

/// An index that is usable for a list of `len` entries: one of its
/// positions or, where the list is empty, zero.
pub open spec fn in_list(index: int, len: int) -> bool {
    0 <= index && (index < len || index == 0)
}

/// `index` moved one step and held inside a list of `len` entries. There is
/// no wraparound: a step beyond either end stays there. An empty list leaves
/// the index as it is.
pub open spec fn step_clamped(index: int, len: int, delta: Delta) -> int {
    if len <= 0 {
        index
    } else {
        clamp(index + delta.offset(), 0, len - 1)
    }
}

/// `index` moved one step round a ring of `len` entries: forward from the
/// last entry leads to the first, backward from the first to the last. An
/// empty ring leaves the index as it is.
pub open spec fn step_wrapped(index: int, len: int, delta: Delta) -> int {
    if len <= 0 {
        index
    } else {
        (index + delta.offset()) % len
    }
}

/// Moves `index` one step inside a list of `len` entries, without wraparound.
pub fn step(index: usize, len: usize, delta: Delta) -> (moved: usize)
    ensures
        moved == step_clamped(index as int, len as int, delta),
        in_list(index as int, len as int) ==> in_list(moved as int, len as int),
{
    if len == 0 {
        return index;
    }
    let last: usize = len - 1;
    match delta {
        Delta::Forward => {
            if index >= last {
                last
            } else {
                index + 1
            }
        },
        Delta::Backward => {
            if index == 0 {
                0
            } else if index - 1 > last {
                last
            } else {
                index - 1
            }
        },
    }
}

/// Moves `index` one step round a ring of `len` entries.
pub fn step_ring(index: usize, len: usize, delta: Delta) -> (moved: usize)
    ensures
        moved == step_wrapped(index as int, len as int, delta),
        len > 0 ==> moved < len,
{
    if len == 0 {
        return index;
    }
    let at: usize = index % len;
    proof {
        let n = len as int;
        let q = index as int / n;
        lemma_fundamental_div_mod(index as int, n);
        assert(index == q * n + at) by (nonlinear_arith)
            requires
                index == n * q + at,
        ;
        if delta == Delta::Forward {
            if at + 1 < n {
                lemma_fundamental_div_mod_converse(index + 1, n, q, at + 1);
            } else {
                assert(index + 1 == (q + 1) * n + 0) by (nonlinear_arith)
                    requires
                        index == q * n + at,
                        at + 1 == n,
                ;
                lemma_fundamental_div_mod_converse(index + 1, n, q + 1, 0);
            }
        } else {
            if at >= 1 {
                lemma_fundamental_div_mod_converse(index - 1, n, q, at - 1);
            } else {
                assert(index - 1 == (q - 1) * n + (n - 1)) by (nonlinear_arith)
                    requires
                        index == q * n + at,
                        at == 0,
                ;
                lemma_fundamental_div_mod_converse(index - 1, n, q - 1, n - 1);
            }
        }
    }
    match delta {
        Delta::Forward => {
            if at + 1 == len {
                0
            } else {
                at + 1
            }
        },
        Delta::Backward => {
            if at == 0 {
                len - 1
            } else {
                at - 1
            }
        },
    }
}

} // verus!
