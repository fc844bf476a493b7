//! What holds of the engine over whole sessions, proved from the model
//! that the contracts of `Timer` are stated in.

use crate::clock::max_duration_nanos;
use crate::clock::saturating_nanos;
use crate::model::millis_of;
use crate::model::replay;
use crate::model::step;
use crate::model::Call;
use crate::model::TimerView;
use std::time::Instant;
use vstd::prelude::*;

verus! {

/// Whether a session leaves a run open: its last `Start`, `Stop` or `Reset`
/// is a `Start`.
pub open spec fn run_open(calls: Seq<Call>) -> bool
    decreases calls.len(),
{
    if calls.len() == 0 {
        false
    } else {
        match calls.last() {
            Call::Start { .. } => true,
            Call::Stop { .. } => false,
            Call::Reset => false,
            Call::Lap { .. } => run_open(calls.drop_last()),
        }
    }
}

/// The time between each `Start` and the `Stop` that ends its run, summed
/// over a session.
pub open spec fn time_in_runs(calls: Seq<Call>) -> nat
    decreases calls.len(),
{
    if calls.len() == 0 {
        0
    } else {
        let before = calls.drop_last();
        match calls.last() {
            Call::Stop { slice } => if run_open(before) {
                time_in_runs(before) + slice
            } else {
                time_in_runs(before)
            },
            _ => time_in_runs(before),
        }
    }
}

/// Whether a session holds no `Reset`.
pub open spec fn without_reset(calls: Seq<Call>) -> bool {
    forall|i: int| 0 <= i < calls.len() ==> !((#[trigger] calls[i]) is Reset)
}

/// Clamping a sum once is the same as clamping after each addition.
pub proof fn lemma_saturating_nanos_absorbs(a: nat, b: nat)
    ensures
        saturating_nanos(saturating_nanos(a) + b) == saturating_nanos(a + b),
        saturating_nanos(a) <= max_duration_nanos(),
        a <= max_duration_nanos() ==> a <= saturating_nanos(a + b),
{
}

/// On a fresh timer, after any session of starts, stops and laps, the
/// accumulated time is the sum of the time spent in the completed runs
/// (clamped at the longest representable span), and the timer runs exactly
/// if the session left a run open. Once settled, that sum is what `elapsed`
/// reads, whatever the clock says.
pub proof fn lemma_settled_time_is_sum_of_runs(calls: Seq<Call>, slice: nat)
    requires
        without_reset(calls),
    ensures
        replay(TimerView::fresh(), calls).accumulated == saturating_nanos(time_in_runs(calls)),
        replay(TimerView::fresh(), calls).running == run_open(calls),
        !run_open(calls) ==> replay(TimerView::fresh(), calls).elapsed_after(slice)
            == saturating_nanos(time_in_runs(calls)),
    decreases calls.len(),
{
    if calls.len() > 0 {
        let before = calls.drop_last();
        assert(without_reset(before)) by {
            assert forall|i: int| 0 <= i < before.len() implies !((#[trigger] before[i]) is Reset) by {
                assert(before[i] == calls[i]);
            }
        }
        lemma_settled_time_is_sum_of_runs(before, slice);
        assert(!(calls[calls.len() - 1] is Reset));
        match calls.last() {
            Call::Stop { slice: run } => {
                lemma_saturating_nanos_absorbs(time_in_runs(before), run);
            },
            _ => {},
        }
    }
}

/// Any session on a fresh timer leaves the data model's invariants in
/// place: an origin is held exactly while running, and the laps carry the
/// indices 1, 2, 3, … in the order they were taken, whatever their labels.
pub proof fn lemma_sessions_keep_laps_numbered(calls: Seq<Call>)
    ensures
        replay(TimerView::fresh(), calls).consistent(),
    decreases calls.len(),
{
    if calls.len() > 0 {
        lemma_sessions_keep_laps_numbered(calls.drop_last());
    }
}

/// Each single call keeps a consistent timer consistent, and a lap that is
/// accepted gets the next index.
pub proof fn lemma_step_keeps_consistent(v: TimerView, call: Call)
    requires
        v.consistent(),
    ensures
        step(v, call).consistent(),
        call is Lap && v.running ==> step(v, call).laps.len() == v.laps.len() + 1 && step(
            v,
            call,
        ).laps.last().index == v.laps.len() + 1,
        call is Lap ==> step(v, call).laps.take(v.laps.len() as int) == v.laps,
{
    match call {
        Call::Lap { slice, label } => {
            if v.running {
                assert(v.laps.push(v.next_lap(slice, label)).take(v.laps.len() as int) =~= v.laps);
            } else {
                assert(v.laps.take(v.laps.len() as int) =~= v.laps);
            }
        },
        _ => {},
    }
}

/// A reset leaves nothing behind, from any state: the timer is stopped, has
/// no laps, and reads zero whatever the clock says.
pub proof fn lemma_reset_reads_zero(v: TimerView, slice: nat)
    ensures
        step(v, Call::Reset) == TimerView::fresh(),
        !step(v, Call::Reset).running,
        step(v, Call::Reset).laps.len() == 0,
        step(v, Call::Reset).elapsed_after(slice) == 0,
        step(v, Call::Reset).wf(),
{
}

/// A refused call changes nothing: `Start` on a running timer, `Stop` and
/// `Lap` on a stopped one.
pub proof fn lemma_refused_calls_change_nothing(v: TimerView, call: Call)
    ensures
        call is Start && v.running ==> step(v, call) == v,
        (call is Stop || call is Lap) && !v.running ==> step(v, call) == v,
{
}

/// The elapsed time is never less than the accumulated time, and equal to
/// it on a stopped timer.
pub proof fn lemma_elapsed_at_least_accumulated(v: TimerView, slice: nat)
    requires
        v.wf(),
    ensures
        v.elapsed_after(slice) >= v.accumulated,
        !v.running ==> v.elapsed_after(slice) == v.accumulated,
        v.elapsed_after(slice) <= max_duration_nanos(),
{
}

/// Within one run, a later reading of the clock never gives an earlier
/// time: laps taken in order have offsets in order, and the time on the
/// timer once stopped is no less than the offset of any lap of the run.
pub proof fn lemma_later_readings_give_later_offsets(
    v: TimerView,
    earlier: nat,
    later: nat,
    label: Option<Seq<char>>,
)
    requires
        v.wf(),
        v.running,
        earlier <= later,
    ensures
        v.elapsed_after(earlier) <= v.elapsed_after(later),
        v.next_lap(earlier, label).at_ms <= v.lapped_after(earlier, label).next_lap(
            later,
            label,
        ).at_ms,
        v.next_lap(earlier, label).at_ms <= millis_of(
            v.lapped_after(earlier, label).stopped_after(later).accumulated,
        ),
{
    let a = v.elapsed_after(earlier);
    let b = v.elapsed_after(later);
    assert(a <= b);
    assert(a / 1_000_000 <= b / 1_000_000);
}

/// A stopped timer after one run with two laps: started, a lap taken when
/// the clock read `first`, another when it read `second`, stopped when it
/// read `last`.
pub open spec fn run_with_two_laps(
    v: TimerView,
    origin: Instant,
    first: nat,
    first_label: Option<Seq<char>>,
    second: nat,
    second_label: Option<Seq<char>>,
    last: nat,
) -> TimerView {
    let started = step(v, Call::Start { origin });
    let once = step(started, Call::Lap { slice: first, label: first_label });
    let twice = step(once, Call::Lap { slice: second, label: second_label });
    step(twice, Call::Stop { slice: last })
}

/// One run with two laps, the clock never reading less than before: the
/// timer ends stopped with two laps more, numbered on and labelled as
/// given; the second offset is no less than the first, and greater where
/// the readings lie a millisecond apart and the time fits a `Duration`;
/// and the settled time, whatever the clock says later, is no less than
/// the second offset.
pub proof fn lemma_two_laps_then_stop(
    v: TimerView,
    origin: Instant,
    first: nat,
    first_label: Option<Seq<char>>,
    second: nat,
    second_label: Option<Seq<char>>,
    last: nat,
    later: nat,
)
    requires
        v.wf(),
        !v.running,
        first <= second <= last,
    ensures
        ({
            let done = run_with_two_laps(
                v,
                origin,
                first,
                first_label,
                second,
                second_label,
                last,
            );
            let n = v.laps.len() as int;
            &&& !done.running
            &&& done.consistent()
            &&& done.laps.len() == n + 2
            &&& done.laps.take(n) == v.laps
            &&& done.laps[n].index == n + 1
            &&& done.laps[n + 1].index == n + 2
            &&& done.laps[n].label == first_label
            &&& done.laps[n + 1].label == second_label
            &&& done.laps[n].at_ms <= done.laps[n + 1].at_ms
            &&& first + 1_000_000 <= second && v.accumulated + second <= max_duration_nanos()
                ==> done.laps[n].at_ms < done.laps[n + 1].at_ms
            &&& millis_of(done.elapsed_after(later)) >= done.laps[n + 1].at_ms
        }),
{
    let started = step(v, Call::Start { origin });
    let once = step(started, Call::Lap { slice: first, label: first_label });
    let twice = step(once, Call::Lap { slice: second, label: second_label });
    let done = step(twice, Call::Stop { slice: last });
    let n = v.laps.len() as int;
    assert(done.laps.take(n) =~= v.laps);
    let a = started.elapsed_after(first);
    let b = started.elapsed_after(second);
    let c = started.elapsed_after(last);
    assert(a <= b <= c);
    assert(a / 1_000_000 <= b / 1_000_000 <= c / 1_000_000);
    if first + 1_000_000 <= second && v.accumulated + second <= max_duration_nanos() {
        assert(a + 1_000_000 <= b);
        assert(a / 1_000_000 < b / 1_000_000);
    }
}

} // verus!
