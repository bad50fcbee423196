//! Choosing the workspace to move to.

use crate::workspace::Workspace;
use vstd::arithmetic::div_mod::{
    lemma_fundamental_div_mod, lemma_fundamental_div_mod_converse, lemma_mod_bound,
};
use vstd::prelude::*;

verus! {

/// The position of the first active workspace at or after `from`, or the
/// length of the list if there is none.
pub open spec fn first_active_from(workspaces: Seq<Workspace>, from: int) -> int
    decreases workspaces.len() - from,
{
    if from < 0 || from >= workspaces.len() {
        workspaces.len() as int
    } else if workspaces[from].active {
        from
    } else {
        first_active_from(workspaces, from + 1)
    }
}

/// Whether some workspace of the list is active.
pub open spec fn has_active(workspaces: Seq<Workspace>) -> bool {
    first_active_from(workspaces, 0) < workspaces.len()
}

/// The first active workspace of a list that has one.
pub open spec fn current_workspace(workspaces: Seq<Workspace>) -> Workspace {
    workspaces[first_active_from(workspaces, 0)]
}

/// `v` brought into the range of `isize` by adding or taking away the size of that range.
pub open spec fn wrap_isize(v: int) -> int {
    if v > isize::MAX {
        v - (usize::MAX + 1)
    } else if v < isize::MIN {
        v + (usize::MAX + 1)
    } else {
        v
    }
}

/// `v` held between `low` and `high`.
pub open spec fn clamp(v: int, low: int, high: int) -> int {
    if v < low {
        low
    } else if v > high {
        high
    } else {
        v
    }
}

/// The index reached from `current` by `delta` steps among `count` workspaces.
///
/// When cycling, stepping past either end comes back in at the other (the sum
/// is taken in `isize`, where it wraps around). Otherwise the walk stops at the
/// first or last workspace.
pub open spec fn switch_target(current: isize, count: int, delta: isize, cycle: bool) -> int {
    if cycle {
        wrap_isize(current + delta) % count
    } else {
        clamp(current + delta, 0, count - 1)
    }
}

/// For a negative `a`, the remainder that rounds towards zero is the
/// Euclidean one, or lies one `n` below it.
pub proof fn lemma_remainder_of_negative(a: int, n: int)
    requires
        n > 0,
    ensures
        a < 0 && (-a) % n == 0 ==> a % n == 0,
        a < 0 && (-a) % n != 0 ==> a % n == n - (-a) % n,
{
    if a < 0 {
        let q = (-a) / n;
        let m = (-a) % n;
        lemma_fundamental_div_mod(-a, n);
        lemma_mod_bound(-a, n);
        if m == 0 {
            assert(a == (-q) * n + 0) by (nonlinear_arith)
                requires
                    -a == n * q + m,
                    m == 0,
            ;
            lemma_fundamental_div_mod_converse(a, n, -q, 0);
        } else {
            assert(a == (-q - 1) * n + (n - m)) by (nonlinear_arith)
                requires
                    -a == n * q + m,
            ;
            lemma_fundamental_div_mod_converse(a, n, -q - 1, n - m);
        }
    }
}

/// The first active workspace of the list, if any.
pub fn find_active(workspaces: &Vec<Workspace>) -> (found: Option<usize>)
    ensures
        found is Some == has_active(workspaces@),
        found matches Some(i) ==> i == first_active_from(workspaces@, 0),
{
    let mut i: usize = 0;
    while i < workspaces.len()
        invariant
            0 <= i <= workspaces.len(),
            first_active_from(workspaces@, 0) == first_active_from(workspaces@, i as int),
        decreases workspaces.len() - i,
    {
        if workspaces[i].active {
            return Some(i);
        }
        i = i + 1;
    }
    None
}

/// The index of the workspace that lies `delta` steps from the active one:
/// to the right for a positive `delta`, to the left for a negative one.
///
/// The active workspace is the first one marked active, and its own `idx`
/// is where the walk starts.
pub fn switch_by(workspaces: &Vec<Workspace>, delta: isize, cycle: bool) -> (target: usize)
    requires
        workspaces.len() <= isize::MAX,
        has_active(workspaces@),
    ensures
        target == switch_target(
            #[verifier::truncate] (current_workspace(workspaces@).idx as isize),
            workspaces.len() as int,
            delta,
            cycle,
        ),
{
    let count: isize = workspaces.len() as isize;
    let found = find_active(workspaces);
    let at: usize = found.unwrap();
    let current: isize = #[verifier::truncate] (workspaces[at].idx as isize);
    if cycle {
        let sum: isize = current.wrapping_add(delta);
        let mut target: isize = sum % count;
        proof {
            lemma_remainder_of_negative(sum as int, count as int);
        }
        if target < 0 {
            target = target + count;
        }
        target as usize
    } else {
        let sum: isize = match current.checked_add(delta) {
            Some(v) => v,
            None => if delta > 0 {
                isize::MAX
            } else {
                isize::MIN
            },
        };
        if sum < 0 {
            0
        } else if sum > count - 1 {
            (count - 1) as usize
        } else {
            sum as usize
        }
    }
}

} // verus!
