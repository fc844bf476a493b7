//! The mathematical model of the engine: what a timer is, and what each
//! operation makes of it, over unbounded integers.
//!
//! Durations are counted in nanoseconds. A *slice* is the reading of the
//! clock at the moment of a call: the time since the current run began.

use crate::clock::saturating_nanos;
use crate::clock::max_duration_nanos;
use std::time::Instant;
use vstd::prelude::*;

verus! {

/// A lap as a mathematical value.
pub struct LapView {
    /// Position in the lap log, counted from 1.
    pub index: nat,
    /// Elapsed time when the lap was taken, in whole milliseconds.
    pub at_ms: nat,
    pub label: Option<Seq<char>>,
}

/// A timer as a mathematical value.
pub struct TimerView {
    /// Nanoseconds folded in by the runs that were stopped.
    pub accumulated: nat,
    pub running: bool,
    /// The clock reading taken by the `start` that began the current run.
    pub origin: Option<Instant>,
    pub laps: Seq<LapView>,
}

/// Whole milliseconds in a span of nanoseconds.
pub open spec fn millis_of(nanos: nat) -> nat {
    nanos / 1_000_000
}

impl TimerView {
    /// The timer as `new` and `reset` leave it.
    pub open spec fn fresh() -> TimerView {
        TimerView { accumulated: 0, running: false, origin: None, laps: Seq::empty() }
    }

    /// The invariants of the data model: an origin is held exactly while
    /// running, and the laps are numbered 1, 2, 3, … in the order taken.
    pub open spec fn consistent(self) -> bool {
        &&& self.running <==> self.origin is Some
        &&& forall|i: int| 0 <= i < self.laps.len() ==> (#[trigger] self.laps[i]).index == i + 1
    }

    /// Consistent, and within what the machine types can hold.
    pub open spec fn wf(self) -> bool {
        &&& self.consistent()
        &&& self.accumulated <= max_duration_nanos()
        &&& self.laps.len() <= u32::MAX
    }

    /// The elapsed time when the clock reads `slice`.
    pub open spec fn elapsed_after(self, slice: nat) -> nat {
        if self.running {
            saturating_nanos(self.accumulated + slice)
        } else {
            self.accumulated
        }
    }

    /// A stopped timer set running from `origin`.
    pub open spec fn started_at(self, origin: Instant) -> TimerView {
        TimerView { running: true, origin: Some(origin), ..self }
    }

    /// A running timer stopped when the clock reads `slice`.
    pub open spec fn stopped_after(self, slice: nat) -> TimerView {
        TimerView {
            accumulated: self.elapsed_after(slice),
            running: false,
            origin: None,
            ..self
        }
    }

    /// The lap that a running timer records when the clock reads `slice`.
    pub open spec fn next_lap(self, slice: nat, label: Option<Seq<char>>) -> LapView {
        LapView {
            index: self.laps.len() + 1,
            at_ms: millis_of(self.elapsed_after(slice)),
            label,
        }
    }

    /// A running timer after that lap was appended.
    pub open spec fn lapped_after(self, slice: nat, label: Option<Seq<char>>) -> TimerView {
        TimerView { laps: self.laps.push(self.next_lap(slice, label)), ..self }
    }
}

/// One call on the engine, with what the clock read when it was made.
pub enum Call {
    Start { origin: Instant },
    Stop { slice: nat },
    Lap { slice: nat, label: Option<Seq<char>> },
    Reset,
}

/// What the engine makes of one call. A refused call changes nothing.
pub open spec fn step(v: TimerView, call: Call) -> TimerView {
    match call {
        Call::Start { origin } => if v.running {
            v
        } else {
            v.started_at(origin)
        },
        Call::Stop { slice } => if v.running {
            v.stopped_after(slice)
        } else {
            v
        },
        Call::Lap { slice, label } => if v.running {
            v.lapped_after(slice, label)
        } else {
            v
        },
        Call::Reset => TimerView::fresh(),
    }
}

/// What the engine makes of a sequence of calls, first to last.
pub open spec fn replay(v: TimerView, calls: Seq<Call>) -> TimerView
    decreases calls.len(),
{
    if calls.len() == 0 {
        v
    } else {
        step(replay(v, calls.drop_last()), calls.last())
    }
}

} // verus!
