use vstd::prelude::*;

use crate::axis::{
    axis_pending, axis_steps, carried_in, expired, remainder, steps_of, LINE_UNITS,
};
use crate::scroll::{idle, scroll_next, scroll_steps, ScrollDelta, ScrollView};

verus! {

/// Sum of a sequence of axis deltas.
pub open spec fn total(deltas: Seq<int>) -> int
    decreases deltas.len(),
{
    if deltas.len() == 0 {
        0
    } else {
        total(deltas.drop_last()) + deltas.last()
    }
}

/// Pending state and sum of emitted steps after `deltas[i]` arrives at `times[i]`, in order.
pub open spec fn axis_run(pending: Option<(int, u64)>, deltas: Seq<int>, times: Seq<u64>) -> (
    Option<(int, u64)>,
    int,
)
    decreases deltas.len(),
{
    if deltas.len() == 0 {
        (pending, 0)
    } else {
        let (before, emitted) = axis_run(pending, deltas.drop_last(), times.drop_last());
        (
            axis_pending(before, deltas.last(), times.last()),
            emitted + axis_steps(before, deltas.last(), times.last()),
        )
    }
}

/// A burst: as many times as deltas, no delta zero, and no gap between
/// consecutive deltas longer than the timeout.
pub open spec fn is_burst(deltas: Seq<int>, times: Seq<u64>) -> bool {
    &&& deltas.len() == times.len()
    &&& forall|i: int| 0 <= i < deltas.len() ==> deltas[i] != 0
    &&& forall|i: int| 0 < i < times.len() ==> !expired(#[trigger] times[i - 1], times[i])
}

/// The leftover of a total lies strictly within one step and has the total's sign.
pub proof fn lemma_remainder_bounds(t: int)
    ensures
        -LINE_UNITS < remainder(t) < LINE_UNITS,
        t >= 0 ==> remainder(t) >= 0,
        t < 0 ==> remainder(t) <= 0,
        remainder(t) == t - steps_of(t) * LINE_UNITS,
{
    let l = LINE_UNITS as int;
    if t >= 0 {
        vstd::arithmetic::div_mod::lemma_fundamental_div_mod(t, l);
        vstd::arithmetic::div_mod::lemma_mod_bound(t, l);
    } else {
        vstd::arithmetic::div_mod::lemma_fundamental_div_mod(-t, l);
        vstd::arithmetic::div_mod::lemma_mod_bound(-t, l);
    }
}

/// Throughout a burst from an idle axis, the steps emitted so far plus the
/// pending leftover add up exactly to what was scrolled, and the leftover
/// stays within one step.
pub proof fn lemma_burst_conserves(deltas: Seq<int>, times: Seq<u64>)
    requires
        is_burst(deltas, times),
        deltas.len() > 0,
    ensures
        axis_run(None, deltas, times).0 == Some(
            (total(deltas) - axis_run(None, deltas, times).1 * LINE_UNITS, times.last()),
        ),
        -LINE_UNITS < total(deltas) - axis_run(None, deltas, times).1 * LINE_UNITS < LINE_UNITS,
    decreases deltas.len(),
{
    let n = deltas.len();
    let d = deltas.last();
    let now = times.last();
    let prefix = deltas.drop_last();
    let prefix_times = times.drop_last();
    if n > 1 {
        assert forall|i: int| 0 < i < prefix_times.len() implies !expired(
            #[trigger] prefix_times[i - 1],
            prefix_times[i],
        ) by {
            assert(prefix_times[i - 1] == times[i - 1]);
            assert(prefix_times[i] == times[i]);
        }
        assert(is_burst(prefix, prefix_times));
        lemma_burst_conserves(prefix, prefix_times);
        assert(prefix_times.last() == times[n - 2]);
        assert(!expired(times[n - 1 - 1], times[n - 1]));
    }
    let (before, emitted) = axis_run(None, prefix, prefix_times);
    assert(d != 0) by {
        assert(deltas[n - 1] != 0);
    }
    let c = carried_in(before, now);
    if n > 1 {
        assert(c == total(prefix) - emitted * LINE_UNITS);
    } else {
        assert(prefix.len() == 0);
        assert(before == None::<(int, u64)>);
        assert(emitted == 0);
        assert(total(prefix) == 0);
        assert(c == total(prefix) - emitted * LINE_UNITS);
    }
    lemma_remainder_bounds(c + d);
    let steps = steps_of(c + d);
    assert(axis_run(None, deltas, times) == (Some((remainder(c + d), now)), emitted + steps));
    assert(total(deltas) == total(prefix) + d);
    assert((emitted + steps) * LINE_UNITS == emitted * LINE_UNITS + steps * LINE_UNITS)
        by (nonlinear_arith);
}

/// A burst from an idle axis that scrolls exactly `n` steps' worth emits exactly `n` steps.
pub proof fn lemma_burst_whole_steps(deltas: Seq<int>, times: Seq<u64>, n: int)
    requires
        is_burst(deltas, times),
        total(deltas) == n * LINE_UNITS,
    ensures
        axis_run(None, deltas, times).1 == n,
{
    assert(LINE_UNITS == 24000);
    if deltas.len() > 0 {
        lemma_burst_conserves(deltas, times);
        let s = axis_run(None, deltas, times).1;
        assert(-24000 < n * 24000 - s * 24000 < 24000);
        assert(n - s == 0) by (nonlinear_arith)
            requires
                -24000 < n * 24000 - s * 24000 < 24000,
        ;
    } else {
        assert(n == 0) by (nonlinear_arith)
            requires
                0 == n * 24000,
        ;
    }
}

/// A zero delta emits nothing and clears the axis, so the next delta
/// accumulates as on an axis that never scrolled.
pub proof fn lemma_zero_clears(pending: Option<(int, u64)>, at: u64, delta: int, now: u64)
    ensures
        axis_steps(pending, 0, at) == 0,
        axis_pending(pending, 0, at) == None::<(int, u64)>,
        axis_steps(axis_pending(pending, 0, at), delta, now) == axis_steps(None, delta, now),
        axis_pending(axis_pending(pending, 0, at), delta, now) == axis_pending(None, delta, now),
{
}

/// A delta that arrives after the timeout ignores the stale leftover.
pub proof fn lemma_stale_discarded(leftover: int, at: u64, delta: int, now: u64)
    requires
        expired(at, now),
    ensures
        axis_steps(Some((leftover, at)), delta, now) == axis_steps(None, delta, now),
        axis_pending(Some((leftover, at)), delta, now) == axis_pending(None, delta, now),
{
}

/// A non-zero delta that arrives within the timeout adds to the leftover.
pub proof fn lemma_fresh_merges(leftover: int, at: u64, delta: int, now: u64)
    requires
        !expired(at, now),
        delta != 0,
    ensures
        axis_steps(Some((leftover, at)), delta, now) == steps_of(leftover + delta),
        axis_pending(Some((leftover, at)), delta, now) == Some((remainder(leftover + delta), now)),
{
}

/// From the idle state (fresh, or just reset) an update emits the whole steps
/// of the event alone and keeps the rest of each non-zero axis.
pub proof fn lemma_idle_update(delta: ScrollDelta, now: u64)
    ensures
        scroll_steps(idle(), delta, now) == (steps_of(delta.x_units()), steps_of(delta.y_units())),
        scroll_next(idle(), delta, now) == (
            if delta.x_units() == 0 { None } else { Some((remainder(delta.x_units()), now)) },
            if delta.y_units() == 0 { None } else { Some((remainder(delta.y_units()), now)) },
        ),
{
    assert(steps_of(0) == 0);
}

} // verus!
