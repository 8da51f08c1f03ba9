//! A selection cursor over `len` items that wraps around at both ends.

use vstd::prelude::*;
use vstd::arithmetic::div_mod::{
    lemma_add_mod_noop, lemma_mod_add_multiples_vanish, lemma_mod_self_0, lemma_mod_twice,
    lemma_small_mod, lemma_sub_mod_noop,
};

verus! {

/// One step of a cursor.
#[derive(Clone, Copy, Debug, PartialEq, Eq, Structural)]
pub enum Move {
    /// Towards the end, from the last item to the first.
    Next,
    /// Towards the start, from the first item to the last.
    Previous,
}

/// The position a cursor counts from when it moves forward: its index, or
/// the place just before the first item when nothing is selected.
pub open spec fn origin_for_next(cur: Option<usize>) -> int {
    match cur {
        Some(i) => i as int,
        None => -1,
    }
}

/// The position a cursor counts from when it moves backward: its index, or
/// the first item when nothing is selected.
pub open spec fn origin_for_previous(cur: Option<usize>) -> int {
    match cur {
        Some(i) => i as int,
        None => 0,
    }
}

/// The selection after one step forward over `len` items. Over no items the
/// cursor stays as it is.
pub open spec fn next_selection(cur: Option<usize>, len: nat) -> Option<usize> {
    if len == 0 {
        cur
    } else {
        Some(((origin_for_next(cur) + 1) % (len as int)) as usize)
    }
}

/// The selection after one step backward over `len` items. Over no items the
/// cursor stays as it is.
pub open spec fn previous_selection(cur: Option<usize>, len: nat) -> Option<usize> {
    if len == 0 {
        cur
    } else {
        Some(((origin_for_previous(cur) - 1 + len) % (len as int)) as usize)
    }
}

/// The selection after one step in either direction.
pub open spec fn moved_selection(cur: Option<usize>, len: nat, m: Move) -> Option<usize> {
    match m {
        Move::Next => next_selection(cur, len),
        Move::Previous => previous_selection(cur, len),
    }
}

/// A cursor is in range when it selects nothing or an index below `len`.
pub open spec fn in_range(cur: Option<usize>, len: nat) -> bool {
    match cur {
        Some(i) => (i as nat) < len,
        None => true,
    }
}

/// The signed length of one step: forward counts 1, backward counts -1.
pub open spec fn step_of(m: Move) -> int {
    match m {
        Move::Next => 1,
        Move::Previous => -1,
    }
}

/// The net signed count of a run of steps.
pub open spec fn net_steps(moves: Seq<Move>) -> int
    decreases moves.len(),
{
    if moves.len() == 0 {
        0
    } else {
        net_steps(moves.drop_last()) + step_of(moves.last())
    }
}

/// The selection after a run of steps, taken in order.
pub open spec fn selection_after(cur: Option<usize>, len: nat, moves: Seq<Move>) -> Option<usize>
    decreases moves.len(),
{
    if moves.len() == 0 {
        cur
    } else {
        moved_selection(selection_after(cur, len, moves.drop_last()), len, moves.last())
    }
}

/// The position a run of steps counts from: the selected index, or, when
/// nothing is selected, the position that the first step counts from.
pub open spec fn origin(cur: Option<usize>, moves: Seq<Move>) -> int {
    if moves.len() > 0 && moves[0] == Move::Previous {
        origin_for_previous(cur)
    } else {
        origin_for_next(cur)
    }
}

/// One step forward from any position lands on the successor of its
/// remainder, or on 0 from the last remainder.
proof fn lemma_step_forward(x: int, n: int)
    requires
        n > 0,
    ensures
        0 <= x % n < n,
        (x + 1) % n == (if x % n + 1 == n { 0 } else { x % n + 1 }),
{
    let r = x % n;
    if n > 1 {
        lemma_add_mod_noop(x, 1, n);
        lemma_small_mod(1, n as nat);
        if r + 1 < n {
            lemma_small_mod((r + 1) as nat, n as nat);
        } else {
            lemma_mod_self_0(n);
        }
    }
}

/// One step backward from any position lands on the predecessor of its
/// remainder, or on `n - 1` from remainder 0.
proof fn lemma_step_backward(x: int, n: int)
    requires
        n > 0,
    ensures
        0 <= x % n < n,
        (x - 1 + n) % n == (if x % n == 0 { n - 1 } else { x % n - 1 }),
{
    let r = x % n;
    if n > 1 {
        lemma_mod_add_multiples_vanish(x - 1, n);
        lemma_sub_mod_noop(x, 1, n);
        lemma_small_mod(1, n as nat);
        if r > 0 {
            lemma_small_mod((r - 1) as nat, n as nat);
        } else {
            lemma_mod_add_multiples_vanish(-1, n);
            lemma_small_mod((n - 1) as nat, n as nat);
        }
    }
}

/// Moves a cursor one step forward.
pub fn select_next(cur: Option<usize>, len: usize) -> (r: Option<usize>)
    ensures
        r == next_selection(cur, len as nat),
        len > 0 ==> r is Some && in_range(r, len as nat),
{
    if len == 0 {
        return cur;
    }
    match cur {
        None => {
            proof {
                lemma_small_mod(0, len as nat);
            }
            Some(0)
        },
        Some(i) => {
            let at: usize = i % len;
            proof {
                lemma_step_forward(i as int, len as int);
            }
            if at + 1 == len {
                Some(0)
            } else {
                Some(at + 1)
            }
        },
    }
}

/// Moves a cursor one step backward.
pub fn select_previous(cur: Option<usize>, len: usize) -> (r: Option<usize>)
    ensures
        r == previous_selection(cur, len as nat),
        len > 0 ==> r is Some && in_range(r, len as nat),
{
    if len == 0 {
        return cur;
    }
    match cur {
        None => {
            proof {
                lemma_small_mod((len - 1) as nat, len as nat);
            }
            Some(len - 1)
        },
        Some(i) => {
            let at: usize = i % len;
            proof {
                lemma_step_backward(i as int, len as int);
            }
            if at == 0 {
                Some(len - 1)
            } else {
                Some(at - 1)
            }
        },
    }
}

/// A remainder modulo `n` is its own remainder, and adding `n` changes no
/// remainder.
proof fn lemma_remainder_is_fixed(x: int, n: int)
    requires
        n > 0,
    ensures
        0 <= x % n < n,
        (x % n) % n == x % n,
        (x + n) % n == x % n,
{
    lemma_mod_twice(x, n);
    lemma_mod_add_multiples_vanish(x, n);
}

/// One step from the remainder of `x` lands on the remainder of `x` moved
/// by that step.
proof fn lemma_move_from_remainder(x: int, len: nat, m: Move)
    requires
        0 < len <= usize::MAX,
    ensures
        moved_selection(Some((x % (len as int)) as usize), len, m) == Some(
            ((x + step_of(m)) % (len as int)) as usize,
        ),
{
    let n = len as int;
    let p = x % n;
    lemma_remainder_is_fixed(x, n);
    match m {
        Move::Next => {
            lemma_step_forward(x, n);
            lemma_step_forward(p, n);
        },
        Move::Previous => {
            lemma_step_backward(x, n);
            lemma_step_backward(p, n);
            lemma_remainder_is_fixed(x - 1, n);
        },
    }
}

/// Wraparound as counting: over `len > 0` items, after any run of steps
/// the cursor selects an index below `len`, and that index is the position
/// it counted from plus the net signed step count, modulo `len`. From a
/// selected index the count starts at that index. From no selection it
/// starts just before the first item if the first step goes forward, and
/// at the first item if it goes backward. A run of no steps is left out
/// where the cursor starts from no selection or beyond the items: there it
/// stays as it is.
pub proof fn lemma_selection_counts_steps(cur: Option<usize>, len: nat, moves: Seq<Move>)
    requires
        0 < len <= usize::MAX,
        moves.len() > 0 || (cur is Some && in_range(cur, len)),
    ensures
        selection_after(cur, len, moves) == Some(
            ((origin(cur, moves) + net_steps(moves)) % (len as int)) as usize,
        ),
        0 <= (origin(cur, moves) + net_steps(moves)) % (len as int) < len,
        in_range(selection_after(cur, len, moves), len),
    decreases moves.len(),
{
    let n = len as int;
    let init = moves.drop_last();
    let last = moves.last();
    let start = origin(cur, moves);
    if moves.len() == 0 {
        lemma_small_mod(start as nat, len);
    } else if init.len() == 0 {
        assert(selection_after(cur, len, init) == cur);
        assert(net_steps(init) == 0);
        match last {
            Move::Next => {},
            Move::Previous => {
                lemma_remainder_is_fixed(start - 1, n);
            },
        }
    } else {
        lemma_selection_counts_steps(cur, len, init);
        lemma_move_from_remainder(start + net_steps(init), len, last);
    }
}

/// Where the count starts at a multiple of `len`, the selected index is the
/// net signed step count itself, modulo `len`: so it is from the first
/// item, from no selection when the first step goes backward, and over a
/// single item.
pub proof fn lemma_selection_is_net_steps(cur: Option<usize>, len: nat, moves: Seq<Move>)
    requires
        0 < len <= usize::MAX,
        moves.len() > 0 || (cur is Some && in_range(cur, len)),
        origin(cur, moves) % (len as int) == 0,
    ensures
        selection_after(cur, len, moves) == Some((net_steps(moves) % (len as int)) as usize),
        0 <= net_steps(moves) % (len as int) < len,
{
    lemma_selection_counts_steps(cur, len, moves);
    lemma_add_mod_noop(origin(cur, moves), net_steps(moves), len as int);
    lemma_mod_twice(net_steps(moves), len as int);
}

} // verus!
