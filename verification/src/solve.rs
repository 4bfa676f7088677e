//! The order in which constraints of different priorities are solved,
//! and the integer bookkeeping around one solve.
use vstd::prelude::*;

use crate::constraints::Constraint;

verus! {

/// `s` is sorted strictly ascending, so no value occurs twice.
pub open spec fn strictly_increasing(s: Seq<u32>) -> bool {
    forall|i: int, j: int| 0 <= i < j < s.len() ==> s[i] < s[j]
}

/// `levels` lists each priority that occurs in `priorities` exactly once,
/// from the highest priority (the smallest number) to the lowest.
pub open spec fn is_level_order(levels: Seq<u32>, priorities: Seq<u32>) -> bool {
    &&& strictly_increasing(levels)
    &&& forall|p: u32| levels.contains(p) <==> priorities.contains(p)
}

/// Inserts `p` into the strictly ascending `levels`, unless it is there already.
#[verifier::spinoff_prover]
fn insert_level(levels: &mut Vec<u32>, p: u32)
    requires
        strictly_increasing(old(levels)@),
    ensures
        strictly_increasing(final(levels)@),
        forall|q: u32| final(levels)@.contains(q) <==> (old(levels)@.contains(q) || q == p),
{
    let mut i: usize = 0;
    while i < levels.len() && levels[i] < p
        invariant
            i <= levels@.len(),
            levels@ == old(levels)@,
            strictly_increasing(levels@),
            forall|j: int| 0 <= j < i ==> levels@[j] < p,
        decreases levels@.len() - i,
    {
        i = i + 1;
    }
    if i < levels.len() && levels[i] == p {
        assert(levels@ == old(levels)@);
        assert forall|q: u32| levels@.contains(q) <==> (old(levels)@.contains(q) || q == p) by {
            if q == p {
                assert(levels@[i as int] == q);
            }
        }
    } else {
        let ghost before = levels@;
        assert(before == old(levels)@);
        assert(forall|j: int| i <= j < before.len() ==> p < before[j]);
        levels.insert(i, p);
        assert forall|q: u32| levels@.contains(q) <==> (before.contains(q) || q == p) by {
            if levels@.contains(q) {
                let k: int = choose|k: int| 0 <= k < levels@.len() && levels@[k] == q;
                if k < i {
                    assert(before[k] == q);
                } else if k > i {
                    assert(before[k - 1] == q);
                }
            }
            if before.contains(q) {
                let k: int = choose|k: int| 0 <= k < before.len() && before[k] == q;
                if k < i {
                    assert(levels@[k] == q);
                } else {
                    assert(levels@[k + 1] == q);
                }
            }
            if q == p {
                assert(levels@[i as int] == q);
            }
        }
    }
}

/// Find all the priority levels, and put them into order from highest to
/// lowest priority (0 is highest, larger numbers are lower).
pub fn priority_levels(priorities: &[u32]) -> (levels: Vec<u32>)
    ensures
        is_level_order(levels@, priorities@),
{
    let mut levels: Vec<u32> = Vec::new();
    let mut i: usize = 0;
    while i < priorities.len()
        invariant
            i <= priorities@.len(),
            strictly_increasing(levels@),
            forall|q: u32| levels@.contains(q) <==> priorities@.subrange(0, i as int).contains(q),
        decreases priorities@.len() - i,
    {
        insert_level(&mut levels, priorities[i]);
        let ghost done = priorities@.subrange(0, i + 1);
        assert forall|q: u32| done.contains(q) <==> (priorities@.subrange(0, i as int).contains(q)
            || q == priorities@[i as int]) by {
            if done.contains(q) {
                let k: int = choose|k: int| 0 <= k < done.len() && done[k] == q;
                if k < i {
                    assert(priorities@.subrange(0, i as int)[k] == q);
                }
            }
            if priorities@.subrange(0, i as int).contains(q) {
                let k: int = choose|k: int| 0 <= k < i && priorities@.subrange(0, i as int)[k] == q;
                assert(done[k] == q);
            }
            if q == priorities@[i as int] {
                assert(done[i as int] == q);
            }
        }
        i = i + 1;
    }
    assert(priorities@.subrange(0, priorities@.len() as int) == priorities@);
    levels
}

/// The indices, among the first `n` requests, of those whose priority is
/// `level` or higher (a number at most `level`), in ascending order.
pub open spec fn indices_up_to(priorities: Seq<u32>, level: u32, n: nat) -> Seq<usize>
    decreases n,
{
    if n == 0 {
        Seq::empty()
    } else {
        let before = indices_up_to(priorities, level, (n - 1) as nat);
        if priorities[n - 1] <= level {
            before.push((n - 1) as usize)
        } else {
            before
        }
    }
}

/// The requests solved at priority `level`: every request whose priority
/// is `level` or higher, in ascending order.
pub open spec fn level_subset(priorities: Seq<u32>, level: u32) -> Seq<usize> {
    indices_up_to(priorities, level, priorities.len())
}

/// Collects the requests solved at priority `level`: the indices of every
/// request whose priority is `level` or higher, in ascending order.
pub fn requests_up_to(priorities: &[u32], level: u32) -> (subset: Vec<usize>)
    ensures
        subset@ == level_subset(priorities@, level),
{
    let mut subset: Vec<usize> = Vec::new();
    let mut i: usize = 0;
    while i < priorities.len()
        invariant
            i <= priorities@.len(),
            subset@ == indices_up_to(priorities@, level, i as nat),
        decreases priorities@.len() - i,
    {
        if priorities[i] <= level {
            subset.push(i);
        }
        i = i + 1;
    }
    subset
}

/// The subset solved at a level holds exactly the requests of that
/// priority or higher, each once, in ascending order.
pub proof fn lemma_level_subset_members(priorities: Seq<u32>, level: u32, n: nat)
    requires
        n <= priorities.len() <= usize::MAX,
    ensures
        forall|i: int| 0 <= i < n ==> (indices_up_to(priorities, level, n).contains(i as usize)
            <==> #[trigger] priorities[i] <= level),
        forall|k: int| 0 <= k < indices_up_to(priorities, level, n).len()
            ==> #[trigger] indices_up_to(priorities, level, n)[k] < n,
        forall|j: int, k: int| 0 <= j < k < indices_up_to(priorities, level, n).len()
            ==> indices_up_to(priorities, level, n)[j] < indices_up_to(priorities, level, n)[k],
    decreases n,
{
    if n > 0 {
        lemma_level_subset_members(priorities, level, (n - 1) as nat);
        let before = indices_up_to(priorities, level, (n - 1) as nat);
        let now = indices_up_to(priorities, level, n);
        assert forall|i: int| 0 <= i < n implies (now.contains(i as usize)
            <==> #[trigger] priorities[i] <= level) by {
            if i < n - 1 {
                if now.contains(i as usize) {
                    let k: int = choose|k: int| 0 <= k < now.len() && now[k] == i as usize;
                    if k < before.len() {
                        assert(before[k] == i as usize);
                    }
                }
                if before.contains(i as usize) {
                    let k: int = choose|k: int| 0 <= k < before.len() && before[k] == i as usize;
                    assert(now[k] == i as usize);
                }
            } else {
                if priorities[i] <= level {
                    assert(now[now.len() - 1] == i as usize);
                } else {
                    if now.contains(i as usize) {
                        let k: int = choose|k: int| 0 <= k < now.len() && now[k] == i as usize;
                        assert(before[k] < n - 1);
                    }
                }
            }
        }
    }
}

/// Solving proceeds from the highest priority down, adding more and more
/// constraints: the subset of a level is contained in the subset of every
/// lower level, and the lowest level present solves every request.
pub proof fn lemma_level_subsets_grow(priorities: Seq<u32>, levels: Seq<u32>)
    requires
        is_level_order(levels, priorities),
        priorities.len() <= usize::MAX,
    ensures
        forall|a: int, b: int, r: usize| 0 <= a <= b < levels.len()
            && level_subset(priorities, levels[a]).contains(r)
            ==> level_subset(priorities, levels[b]).contains(r),
        levels.len() > 0 ==> forall|r: usize| r < priorities.len()
            ==> level_subset(priorities, levels.last()).contains(r),
{
    lemma_level_subset_members(priorities, 0, priorities.len());
    assert forall|a: int, b: int, r: usize| 0 <= a <= b < levels.len()
        && level_subset(priorities, levels[a]).contains(r)
        implies level_subset(priorities, levels[b]).contains(r) by {
        lemma_level_subset_members(priorities, levels[a], priorities.len());
        lemma_level_subset_members(priorities, levels[b], priorities.len());
        let sa = level_subset(priorities, levels[a]);
        let k: int = choose|k: int| 0 <= k < sa.len() && sa[k] == r;
        assert(sa[k] < priorities.len());
        assert(priorities[r as int] <= levels[a]);
    }
    if levels.len() > 0 {
        let last: u32 = levels.last();
        lemma_level_subset_members(priorities, last, priorities.len());
        assert forall|r: usize| r < priorities.len()
            implies level_subset(priorities, last).contains(r) by {
            assert(priorities.contains(priorities[r as int]));
            assert(levels.contains(priorities[r as int]));
            let k: int = choose|k: int| 0 <= k < levels.len() && levels[k] == priorities[r as int];
            assert(priorities[r as int] <= last);
        }
    }
}

/// Two level orders of the same requests agree on their first `n` entries.
proof fn lemma_level_orders_agree(priorities: Seq<u32>, a: Seq<u32>, b: Seq<u32>, n: nat)
    requires
        is_level_order(a, priorities),
        is_level_order(b, priorities),
        n <= a.len(),
        n <= b.len(),
    ensures
        forall|j: int| 0 <= j < n ==> a[j] == b[j],
    decreases n,
{
    if n > 0 {
        lemma_level_orders_agree(priorities, a, b, (n - 1) as nat);
        let i: int = n - 1;
        if a[i] < b[i] {
            assert(a.contains(a[i]));
            let k: int = choose|k: int| 0 <= k < b.len() && b[k] == a[i];
            assert(k < i);
            assert(a[k] == a[i]);
        } else if b[i] < a[i] {
            assert(b.contains(b[i]));
            let k: int = choose|k: int| 0 <= k < a.len() && a[k] == b[i];
            assert(k < i);
            assert(b[k] == b[i]);
        }
    }
}

/// A priority order is determined by the priorities alone: two level
/// orders of the same requests are equal.
pub proof fn lemma_level_order_unique(priorities: Seq<u32>, a: Seq<u32>, b: Seq<u32>)
    requires
        is_level_order(a, priorities),
        is_level_order(b, priorities),
    ensures
        a == b,
{
    if a.len() < b.len() {
        lemma_level_orders_agree(priorities, a, b, a.len());
        let x: u32 = b[a.len() as int];
        assert(b.contains(x));
        let k: int = choose|k: int| 0 <= k < a.len() && a[k] == x;
        assert(b[k] == x);
    } else if b.len() < a.len() {
        lemma_level_orders_agree(priorities, a, b, b.len());
        let x: u32 = a[b.len() as int];
        assert(a.contains(x));
        let k: int = choose|k: int| 0 <= k < b.len() && b[k] == x;
        assert(a[k] == x);
    } else {
        lemma_level_orders_agree(priorities, a, b, a.len());
        assert(a =~= b);
    }
}

/// What solving by priority returns, given the outcomes of the levels tried
/// in order, the last of which ended the search. Each outcome is the
/// solver's result and whether it left some constraint unsatisfied.
/// A level that fails, or leaves a constraint unsatisfied, gives way to the
/// last level before it, which solved everything it was given; when there
/// is no such level its own result stands.
pub open spec fn priority_result<O, E>(outs: Seq<Result<(O, bool), E>>) -> Result<O, E> {
    let previous = if outs.len() >= 2 {
        match outs[outs.len() - 2] {
            Ok((o, _)) => Some(o),
            Err(_) => None,
        }
    } else {
        None
    };
    match outs.last() {
        Err(e) => match previous {
            Some(o) => Ok(o),
            None => Err(e),
        },
        Ok((o, unsatisfied)) => match previous {
            Some(p) if unsatisfied => Ok(p),
            _ => Ok(o),
        },
    }
}

/// The `k`-th outcome came from a call of `solve_subset` on the requests
/// of level `levels[k]` and that level.
pub open spec fn level_outcome<O, E, F: Fn(Vec<usize>, u32) -> Result<(O, bool), E>>(
    solve_subset: F,
    priorities: Seq<u32>,
    levels: Seq<u32>,
    outs: Seq<Result<(O, bool), E>>,
    k: int,
) -> bool {
    exists|v: Vec<usize>|
        v@ == level_subset(priorities, levels[k]) && #[trigger] call_ensures(
            solve_subset,
            (v, levels[k]),
            outs[k],
        )
}

/// `outs` are the outcomes of solving the first `outs.len()` levels in
/// order: the `k`-th came from a call of `solve_subset` on the requests of
/// level `levels[k]` and that level, every level before the last solved
/// all its constraints, and the last one either failed, left a constraint
/// unsatisfied, or was the lowest level.
pub open spec fn is_priority_trace<O, E, F: Fn(Vec<usize>, u32) -> Result<(O, bool), E>>(
    solve_subset: F,
    priorities: Seq<u32>,
    levels: Seq<u32>,
    outs: Seq<Result<(O, bool), E>>,
) -> bool {
    &&& 1 <= outs.len() <= levels.len()
    &&& forall|k: int|
        0 <= k < outs.len() ==> #[trigger] level_outcome(solve_subset, priorities, levels, outs, k)
    &&& forall|k: int| 0 <= k < outs.len() - 1 ==> (#[trigger] outs[k] matches Ok((_, false)))
    &&& outs.len() == levels.len() || !(outs.last() matches Ok((_, false)))
}

/// Solves by priority: starting with only the highest priority
/// constraints, adding more and more until all constraints are solved, or
/// a level cannot be solved or leaves a constraint unsatisfied.
/// `priorities[i]` is the priority of request `i`; `solve_subset(subset,
/// level)` solves the requests listed in `subset` and returns its result
/// and whether it left some constraint unsatisfied.
/// Returns `None` when there are no requests.
pub fn solve_by_priority<O, E, F>(priorities: &[u32], solve_subset: F) -> (r: Option<Result<O, E>>)
    where
        F: Fn(Vec<usize>, u32) -> Result<(O, bool), E>,
    requires
        forall|v: Vec<usize>, level: u32| call_requires(solve_subset, (v, level)),
    ensures
        r is None <==> priorities@.len() == 0,
        r matches Some(res) ==> exists|levels: Seq<u32>, outs: Seq<Result<(O, bool), E>>|
            {
                &&& is_level_order(levels, priorities@)
                &&& is_priority_trace(solve_subset, priorities@, levels, outs)
                &&& res == priority_result(outs)
            },
{
    let levels = priority_levels(priorities);
    proof {
        if priorities@.len() > 0 {
            assert(priorities@.contains(priorities@[0]));
            assert(levels@.contains(priorities@[0]));
        }
        if levels@.len() > 0 {
            assert(levels@.contains(levels@[0]));
        }
    }
    let mut res: Option<O> = None;
    let ghost mut outs: Seq<Result<(O, bool), E>> = Seq::empty();
    let mut k: usize = 0;
    while k < levels.len()
        invariant
            k <= levels@.len(),
            is_level_order(levels@, priorities@),
            levels@.len() == 0 <==> priorities@.len() == 0,
            forall|v: Vec<usize>, level: u32| call_requires(solve_subset, (v, level)),
            outs.len() == k,
            forall|j: int|
                0 <= j < k ==> #[trigger] level_outcome(solve_subset, priorities@, levels@, outs, j),
            forall|j: int| 0 <= j < k ==> (#[trigger] outs[j] matches Ok((_, false))),
            k == 0 ==> res is None,
            k > 0 ==> (res matches Some(o) && outs[k - 1] == Ok::<(O, bool), E>((o, false))),
        decreases levels@.len() - k,
    {
        let level: u32 = levels[k];
        let subset = requests_up_to(priorities, level);
        let ghost given = subset;
        let out = solve_subset(subset, level);
        proof {
            let before = outs;
            outs = outs.push(out);
            assert(call_ensures(solve_subset, (given, levels@[k as int]), outs[k as int]));
            assert forall|j: int| 0 <= j <= k implies #[trigger] level_outcome(
                solve_subset,
                priorities@,
                levels@,
                outs,
                j,
            ) by {
                if j < k {
                    assert(level_outcome(solve_subset, priorities@, levels@, before, j));
                    let v = choose|v: Vec<usize>|
                        v@ == level_subset(priorities@, levels@[j]) && #[trigger] call_ensures(
                            solve_subset,
                            (v, levels@[j]),
                            before[j],
                        );
                    assert(before[j] == outs[j]);
                    assert(call_ensures(solve_subset, (v, levels@[j]), outs[j]));
                } else {
                    assert(given@ == level_subset(priorities@, levels@[j]));
                    assert(call_ensures(solve_subset, (given, levels@[j]), outs[j]));
                }
            }
            assert forall|j: int| 0 <= j < k implies (#[trigger] outs[j] matches Ok((_, false))) by {
                assert(before[j] == outs[j]);
            }
        }
        match out {
            Ok((outcome, unsatisfied)) => {
                if unsatisfied {
                    // There's no point trying to add more lower-priority
                    // constraints: return the last fully solved level.
                    let r = match res {
                        Some(previous) => previous,
                        None => outcome,
                    };
                    proof {
                        assert(is_priority_trace(solve_subset, priorities@, levels@, outs));
                        assert(Ok::<O, E>(r) == priority_result(outs));
                    }
                    return Some(Ok(r));
                }
                res = Some(outcome);
            },
            Err(e) => {
                // Return the last solved system with fewer (higher-priority)
                // constraints, or the error when this was the first level.
                let r = match res {
                    Some(previous) => Ok(previous),
                    None => Err(e),
                };
                proof {
                    assert(is_priority_trace(solve_subset, priorities@, levels@, outs));
                    assert(r == priority_result(outs));
                }
                return Some(r);
            },
        }
        k = k + 1;
    }
    match res {
        Some(outcome) => {
            proof {
                assert(is_priority_trace(solve_subset, priorities@, levels@, outs));
                assert(Ok::<O, E>(outcome) == priority_result(outs));
            }
            Some(Ok(outcome))
        },
        None => None,
    }
}

/// The largest of `values`, or 0 when there are none.
pub open spec fn max_or_zero_spec(values: Seq<u32>) -> u32
    decreases values.len(),
{
    if values.len() == 0 {
        0
    } else {
        let rest: u32 = max_or_zero_spec(values.drop_last());
        if values.last() > rest {
            values.last()
        } else {
            rest
        }
    }
}

/// The largest of `values`, or 0 when there are none: the highest variable
/// ID among the initial guesses, or the lowest priority (largest number)
/// among the constraints of one solve.
pub fn max_or_zero(values: &[u32]) -> (m: u32)
    ensures
        m == max_or_zero_spec(values@),
        values@.len() == 0 ==> m == 0,
        values@.len() > 0 ==> values@.contains(m),
        forall|i: int| 0 <= i < values@.len() ==> values@[i] <= m,
{
    let mut m: u32 = 0;
    let mut i: usize = 0;
    while i < values.len()
        invariant
            i <= values@.len(),
            m == max_or_zero_spec(values@.subrange(0, i as int)),
            i > 0 ==> values@.subrange(0, i as int).contains(m),
            forall|j: int| 0 <= j < i ==> values@[j] <= m,
        decreases values@.len() - i,
    {
        let ghost prefix = values@.subrange(0, i + 1);
        assert(prefix.drop_last() == values@.subrange(0, i as int));
        if values[i] > m {
            m = values[i];
            assert(prefix[i as int] == m);
        }
        proof {
            if m != values@[i as int] && i > 0 {
                let k: int = choose|k: int| 0 <= k < i && values@.subrange(0, i as int)[k] == m;
                assert(prefix[k] == m);
            }
        }
        i = i + 1;
    }
    assert(values@.subrange(0, values@.len() as int) == values@);
    m
}

/// Whether a constraint with `residual_dim` residual equations is satisfied,
/// given for each of the three residual slots whether it is within
/// tolerance: only the first `residual_dim` slots count.
pub fn residuals_satisfied(residual_dim: usize, within_tolerance: [bool; 3]) -> (sat: bool)
    requires
        1 <= residual_dim <= 3,
    ensures
        sat == forall|i: int| 0 <= i < residual_dim ==> #[trigger] within_tolerance@[i],
{
    let sat0 = within_tolerance[0];
    let sat1 = within_tolerance[1];
    let sat2 = within_tolerance[2];
    match residual_dim {
        1 => sat0,
        2 => sat0 && sat1,
        _ => sat0 && sat1 && sat2,
    }
}

/// The total number of residual equations of `constraints`.
pub open spec fn total_residual_dim_spec<S, A>(constraints: Seq<Constraint<S, A>>) -> nat
    decreases constraints.len(),
{
    if constraints.len() == 0 {
        0
    } else {
        total_residual_dim_spec(constraints.drop_last())
            + constraints.last().spec_residual_dim()
    }
}

/// The total number of residual equations of `constraints`, which is the
/// number of rows of the system's Jacobian.
pub fn total_residual_dim<S, A>(constraints: &[Constraint<S, A>]) -> (n: usize)
    requires
        constraints@.len() <= usize::MAX / 2,
    ensures
        n == total_residual_dim_spec(constraints@),
        constraints@.len() <= n <= 2 * constraints@.len(),
{
    let mut n: usize = 0;
    let mut i: usize = 0;
    while i < constraints.len()
        invariant
            i <= constraints@.len() <= usize::MAX / 2,
            n == total_residual_dim_spec(constraints@.subrange(0, i as int)),
            i <= n <= 2 * i,
        decreases constraints@.len() - i,
    {
        let ghost prefix = constraints@.subrange(0, i + 1);
        assert(prefix.drop_last() == constraints@.subrange(0, i as int));
        n = n + constraints[i].residual_dim();
        i = i + 1;
    }
    assert(constraints@.subrange(0, constraints@.len() as int) == constraints@);
    n
}

/// Counting equations is additive: the equations of a list followed by
/// one more constraint are those of the list plus that constraint's own.
pub proof fn lemma_total_residual_dim_push<S, A>(s: Seq<Constraint<S, A>>, c: Constraint<S, A>)
    ensures
        total_residual_dim_spec(s.push(c)) == total_residual_dim_spec(s) + c.spec_residual_dim(),
        total_residual_dim_spec(seq![c]) == c.spec_residual_dim(),
{
    assert(s.push(c).drop_last() =~= s);
    let one = seq![c];
    assert(one.drop_last() =~= Seq::<Constraint<S, A>>::empty());
    assert(one.last() == c);
    assert(total_residual_dim_spec(Seq::<Constraint<S, A>>::empty()) == 0);
}

/// The equations of two lists together are those of each list added up.
pub proof fn lemma_total_residual_dim_concat<S, A>(s: Seq<Constraint<S, A>>, t: Seq<Constraint<S, A>>)
    ensures
        total_residual_dim_spec(s + t) == total_residual_dim_spec(s) + total_residual_dim_spec(t),
    decreases t.len(),
{
    if t.len() == 0 {
        assert(s + t =~= s);
    } else {
        lemma_total_residual_dim_concat(s, t.drop_last());
        assert((s + t).drop_last() =~= s + t.drop_last());
    }
}

/// What solving by priority returns, case by case: the outcome of the
/// lowest level when every level solved everything; otherwise, when the
/// level that stopped the search is not the first, the outcome of the
/// level immediately before it; otherwise that first level's own result.
pub proof fn lemma_priority_result_cases<O, E>(outs: Seq<Result<(O, bool), E>>)
    requires
        outs.len() >= 1,
        forall|k: int| 0 <= k < outs.len() - 1 ==> (#[trigger] outs[k] matches Ok((_, false))),
    ensures
        outs.last() matches Ok((o, false)) ==> priority_result(outs) == Ok::<O, E>(o),
        outs.len() >= 2 && !(outs.last() matches Ok((_, false))) ==> (outs[outs.len() - 2] matches Ok(
            (o, _),
        ) && priority_result(outs) == Ok::<O, E>(o)),
        outs.len() == 1 ==> match outs[0] {
            Ok((o, _)) => priority_result(outs) == Ok::<O, E>(o),
            Err(e) => priority_result(outs) == Err::<O, E>(e),
        },
{
    if outs.len() >= 2 {
        assert(outs[outs.len() - 2] matches Ok((_, false)));
    }
}

} // verus!
