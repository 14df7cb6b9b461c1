//! Properties of the protocol engine over whole event sequences.
use vstd::prelude::*;
use crate::engine::{fire_decision, fires, in_range, seed_needle, step, EngineState};
use crate::event::Event;
use crate::pattern::bit_at;

verus! {

/// The engine state after handling `evs` in order, starting from `s`.
pub open spec fn run(s: EngineState, evs: Seq<Event>) -> EngineState
    decreases evs.len(),
{
    if evs.len() == 0 {
        s
    } else {
        step(run(s, evs.drop_last()), evs.last())
    }
}

/// For each event of `evs`, whether handling it pulses the selector.
pub open spec fn fire_trace(s: EngineState, evs: Seq<Event>, p: Seq<Seq<bool>>) -> Seq<bool> {
    Seq::new(evs.len(), |j: int| fires(run(s, evs.take(j)), evs[j], p))
}

/// `n` needle pulses.
pub open spec fn pulses(n: nat) -> Seq<Event> {
    Seq::new(n, |i: int| Event::NeedlePulse)
}

/// The needle after `k` pulses from the seeded position.
pub open spec fn needle_after(dir_right: bool, width: usize, k: int) -> int {
    if dir_right { seed_needle(dir_right, width) + k } else { seed_needle(dir_right, width) - k }
}

proof fn lemma_run_step(s: EngineState, evs: Seq<Event>, j: int)
    requires
        0 <= j < evs.len(),
    ensures
        run(s, evs.take(j + 1)) == step(run(s, evs.take(j)), evs[j]),
{
    assert(evs.take(j + 1).drop_last() == evs.take(j));
}

/// While a pass runs, entering the selection window and then receiving `n`
/// needle pulses visits the needles one by one in the travel direction
/// (`+1` per pulse left to right, `-1` right to left, from one position
/// before the first needle), and the `i`-th pulse fires exactly when its
/// needle lies inside the pattern and the pattern bit of the current row at
/// the needle's column is set. Read in scan order, that is column `i` of the
/// row, whichever the direction.
pub proof fn lemma_scan_visits_needles_in_order(s: EngineState, p: Seq<Seq<bool>>, n: nat)
    requires
        s.wf(),
        s.active,
        n <= i32::MAX,
    ensures
        ({
            let evs = seq![Event::RangeChanged(true)] + pulses(n);
            let trace = fire_trace(s, evs, p);
            &&& trace[0] == false
            &&& forall|k: int|
                0 <= k <= n ==> #[trigger] run(s, evs.take(k + 1)).needle == needle_after(
                    s.dir_right,
                    s.width,
                    k,
                )
            &&& forall|i: int|
                0 <= i < n ==> #[trigger] trace[i + 1] == fire_decision(
                    p,
                    s.width as int,
                    s.row as int,
                    needle_after(s.dir_right, s.width, i + 1),
                    s.dir_right,
                )
            &&& forall|i: int|
                0 <= i < n ==> #[trigger] trace[i + 1] == (i < s.width && bit_at(
                    p,
                    s.row as int,
                    i,
                ))
        }),
{
    let evs = seq![Event::RangeChanged(true)] + pulses(n);
    let s0 = EngineState { inside_pattern: true, needle: seed_needle(s.dir_right, s.width), ..s };
    assert(evs.take(0) == Seq::<Event>::empty());
    lemma_run_step(s, evs, 0);
    assert forall|k: int| 0 <= k <= n implies #[trigger] run(s, evs.take(k + 1)) == (EngineState {
        needle: needle_after(s.dir_right, s.width, k) as i32,
        ..s0
    }) by {
        lemma_scan_prefix(s, n, k);
    }
    assert forall|i: int| 0 <= i < n implies #[trigger] fire_trace(s, evs, p)[i + 1]
        == fire_decision(
        p,
        s.width as int,
        s.row as int,
        needle_after(s.dir_right, s.width, i + 1),
        s.dir_right,
    ) by {
        lemma_scan_prefix(s, n, i);
        assert(evs[i + 1] == Event::NeedlePulse);
    }
}

proof fn lemma_scan_prefix(s: EngineState, n: nat, k: int)
    requires
        s.wf(),
        s.active,
        n <= i32::MAX,
        0 <= k <= n,
    ensures
        run(s, (seq![Event::RangeChanged(true)] + pulses(n)).take(k + 1)) == (EngineState {
            inside_pattern: true,
            needle: needle_after(s.dir_right, s.width, k) as i32,
            ..s
        }),
    decreases k,
{
    let evs = seq![Event::RangeChanged(true)] + pulses(n);
    if k == 0 {
        assert(evs.take(0) == Seq::<Event>::empty());
        lemma_run_step(s, evs, 0);
    } else {
        lemma_scan_prefix(s, n, k - 1);
        lemma_run_step(s, evs, k);
        assert(evs[k] == Event::NeedlePulse);
    }
}

/// While a pass runs, leaving the selection window moves to the next row
/// exactly once, however many needle pulses came before.
pub proof fn lemma_leaving_window_advances_row_once(s: EngineState, n: nat)
    requires
        s.wf(),
        s.active,
    ensures
        run(s, pulses(n).push(Event::RangeChanged(false))).row == s.row + 1,
{
    lemma_pulses_keep_row(s, n);
    assert(pulses(n).push(Event::RangeChanged(false)).drop_last() == pulses(n));
}

proof fn lemma_pulses_keep_row(s: EngineState, n: nat)
    requires
        s.wf(),
    ensures
        run(s, pulses(n)).row == s.row,
        run(s, pulses(n)).active == s.active,
        run(s, pulses(n)).wf(),
    decreases n,
{
    if n > 0 {
        assert(pulses(n).drop_last() == pulses((n - 1) as nat));
        lemma_pulses_keep_row(s, (n - 1) as nat);
    }
}

/// No event but `StartKnit` ever moves the row back.
pub proof fn lemma_row_never_decreases(s: EngineState, e: Event)
    requires
        s.wf(),
        e != Event::StartKnit,
    ensures
        step(s, e).row >= s.row,
{
}

/// Leaving the window on the last row ends the pass.
pub proof fn lemma_last_row_ends_pass(s: EngineState)
    requires
        s.wf(),
        s.active,
        s.row + 1 == s.height,
    ensures
        step(s, Event::RangeChanged(false)).row == s.height,
        !step(s, Event::RangeChanged(false)).active,
{
}

/// Once the pass has ended, no event sequence without a `StartKnit` starts
/// it again, moves the row or the needle, changes the window state, or
/// fires on a needle pulse.
pub proof fn lemma_idle_until_start(s: EngineState, evs: Seq<Event>, p: Seq<Seq<bool>>)
    requires
        s.wf(),
        !s.active,
        forall|i: int| 0 <= i < evs.len() ==> evs[i] != Event::StartKnit,
    ensures
        !run(s, evs).active,
        run(s, evs).row == s.row,
        run(s, evs).needle == s.needle,
        run(s, evs).inside_pattern == s.inside_pattern,
        forall|j: int|
            0 <= j < evs.len() && evs[j] == Event::NeedlePulse ==> !#[trigger] fire_trace(
                s,
                evs,
                p,
            )[j],
    decreases evs.len(),
{
    if evs.len() > 0 {
        let prefix = evs.drop_last();
        lemma_idle_until_start(s, prefix, p);
        assert forall|j: int|
            0 <= j < evs.len() && evs[j] == Event::NeedlePulse implies !#[trigger] fire_trace(
            s,
            evs,
            p,
        )[j] by {
            if j < prefix.len() {
                assert(evs.take(j) == prefix.take(j));
                assert(fire_trace(s, prefix, p)[j] == fire_trace(s, evs, p)[j]);
            } else {
                assert(evs.take(j) == prefix);
            }
        }
    }
}

/// `StopKnit` ends the pass in any state and leaves the row, the needle and
/// everything else as they were.
pub proof fn lemma_stop_keeps_position(s: EngineState)
    ensures
        !step(s, Event::StopKnit).active,
        step(s, Event::StopKnit).row == s.row,
        step(s, Event::StopKnit).needle == s.needle,
        step(s, Event::StopKnit) == (EngineState { active: false, ..s }),
{
}

/// A needle pulse that lands outside `0..width` never fires, whatever the
/// pattern.
pub proof fn lemma_out_of_range_never_fires(s: EngineState, p: Seq<Seq<bool>>)
    requires
        !in_range(step(s, Event::NeedlePulse).needle as int, s.width as int),
    ensures
        !fires(s, Event::NeedlePulse, p),
{
}

} // verus!
