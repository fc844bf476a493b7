//! The timing engine: accumulated time, a running flag and a lap log.

use crate::clock;
use crate::clock::duration_nanos;
use crate::error::TimerError;
use crate::error::TimerErrorKind;
use crate::model::step;
use crate::model::Call;
use crate::model::LapView;
use crate::model::TimerView;
use std::time::Duration;
use std::time::Instant;
use vstd::prelude::*;

verus! {

/// A marker recorded while the timer runs.
#[derive(Debug, Clone, PartialEq, Eq)]
pub struct Lap {
    /// Position in the lap log, counted from 1.
    pub index: u32,
    /// Elapsed time at the moment of recording, in whole milliseconds.
    pub at_ms: u128,
    pub label: Option<String>,
}

/// A label as a sequence of characters.
pub open spec fn label_view(label: Option<String>) -> Option<Seq<char>> {
    match label {
        Some(s) => Some(s@),
        None => None,
    }
}

impl View for Lap {
    type V = LapView;

    open spec fn view(&self) -> LapView {
        LapView { index: self.index as nat, at_ms: self.at_ms as nat, label: label_view(self.label) }
    }
}

/// The views of a run of laps, in order.
pub open spec fn lap_views(laps: Seq<Lap>) -> Seq<LapView> {
    laps.map_values(|lap: Lap| lap@)
}

/// A stopwatch. Time accumulates over any number of start/stop cycles;
/// laps can be recorded while it runs.
pub struct Timer {
    origin: Option<Instant>,
    accumulated: Duration,
    running: bool,
    laps: Vec<Lap>,
}

impl View for Timer {
    type V = TimerView;

    closed spec fn view(&self) -> TimerView {
        TimerView {
            accumulated: duration_nanos(self.accumulated),
            running: self.running,
            origin: self.origin,
            laps: lap_views(self.laps@),
        }
    }
}

impl Timer {
    /// Every timer that this module hands out is well formed.
    pub open spec fn wf(&self) -> bool {
        self@.wf()
    }

    /// A stopped timer with no time on it and no laps.
    pub fn new() -> (t: Timer)
        ensures
            t.wf(),
            t@ == TimerView::fresh(),
    {
        let t = Timer { origin: None, accumulated: clock::zero(), running: false, laps: Vec::new() };
        assert(lap_views(t.laps@) =~= Seq::<LapView>::empty());
        t
    }

    /// Whether the timer is between a `start` and the next `stop`.
    pub fn is_running(&self) -> (b: bool)
        ensures
            b == self@.running,
    {
        self.running
    }

    /// Sets a stopped timer running, with `origin` as the start of the run.
    /// Refused with `AlreadyRunning` on a running timer.
    pub fn start_at(&mut self, origin: Instant) -> (r: Result<(), TimerError>)
        requires
            old(self).wf(),
        ensures
            final(self).wf(),
            old(self)@.running ==> r == Err::<(), TimerError>(
                TimerError(TimerErrorKind::AlreadyRunning),
            ) && *final(self) == *old(self),
            !old(self)@.running ==> r is Ok && final(self)@ == old(self)@.started_at(origin),
            final(self)@ == step(old(self)@, (Call::Start { origin })),
    {
        if self.running {
            return Err(TimerError(TimerErrorKind::AlreadyRunning));
        }
        self.origin = Some(origin);
        self.running = true;
        Ok(())
    }

    /// Sets a stopped timer running from the present moment.
    /// Refused with `AlreadyRunning` on a running timer.
    pub fn start(&mut self) -> (r: Result<(), TimerError>)
        requires
            old(self).wf(),
        ensures
            final(self).wf(),
            old(self)@.running ==> r == Err::<(), TimerError>(
                TimerError(TimerErrorKind::AlreadyRunning),
            ) && *final(self) == *old(self),
            !old(self)@.running ==> r is Ok && exists|origin: Instant|
                final(self)@ == old(self)@.started_at(origin),
    {
        if self.running {
            return Err(TimerError(TimerErrorKind::AlreadyRunning));
        }
        let origin = clock::now();
        self.start_at(origin)
    }

    /// Stops a running timer whose clock reads `slice`, and folds the slice
    /// into the accumulated time. Refused with `NotRunning` on a stopped
    /// timer.
    pub fn stop_after(&mut self, slice: Duration) -> (r: Result<(), TimerError>)
        requires
            old(self).wf(),
        ensures
            final(self).wf(),
            !old(self)@.running ==> r == Err::<(), TimerError>(
                TimerError(TimerErrorKind::NotRunning),
            ) && *final(self) == *old(self),
            old(self)@.running ==> r is Ok && final(self)@ == old(self)@.stopped_after(
                duration_nanos(slice),
            ),
            final(self)@ == step(old(self)@, (Call::Stop { slice: duration_nanos(slice) })),
    {
        if !self.running {
            return Err(TimerError(TimerErrorKind::NotRunning));
        }
        self.accumulated = clock::saturating_add(self.accumulated, slice);
        self.origin = None;
        self.running = false;
        Ok(())
    }

    /// Stops a running timer now. Refused with `NotRunning` on a stopped
    /// timer.
    pub fn stop(&mut self) -> (r: Result<(), TimerError>)
        requires
            old(self).wf(),
        ensures
            final(self).wf(),
            !old(self)@.running ==> r == Err::<(), TimerError>(
                TimerError(TimerErrorKind::NotRunning),
            ) && *final(self) == *old(self),
            old(self)@.running ==> r is Ok && exists|slice: nat|
                final(self)@ == old(self)@.stopped_after(slice),
    {
        match self.origin {
            Some(origin) => {
                let slice = clock::elapsed_since(&origin);
                self.stop_after(slice)
            },
            None => Err(TimerError(TimerErrorKind::NotRunning)),
        }
    }

    /// Back to the state `new` gives: stopped, no time, no laps.
    pub fn reset(&mut self)
        ensures
            final(self).wf(),
            final(self)@ == TimerView::fresh(),
            final(self)@ == step(old(self)@, Call::Reset),
    {
        self.origin = None;
        self.accumulated = clock::zero();
        self.running = false;
        self.laps.clear();
        assert(lap_views(self.laps@) =~= Seq::<LapView>::empty());
    }

    /// The elapsed time of a timer whose clock reads `slice`: the
    /// accumulated time, and the current slice on top while running.
    pub fn elapsed_after(&self, slice: Duration) -> (d: Duration)
        requires
            self.wf(),
        ensures
            duration_nanos(d) == self@.elapsed_after(duration_nanos(slice)),
    {
        if self.running {
            clock::saturating_add(self.accumulated, slice)
        } else {
            self.accumulated
        }
    }

    /// The elapsed time now. Never less than the accumulated time, and equal
    /// to it on a stopped timer.
    pub fn elapsed(&self) -> (d: Duration)
        requires
            self.wf(),
        ensures
            exists|slice: nat| duration_nanos(d) == self@.elapsed_after(slice),
            duration_nanos(d) >= self@.accumulated,
            !self@.running ==> duration_nanos(d) == self@.accumulated,
    {
        match self.origin {
            Some(origin) => {
                let slice = clock::elapsed_since(&origin);
                self.elapsed_after(slice)
            },
            None => {
                assert(duration_nanos(self.accumulated) == self@.elapsed_after(0));
                self.accumulated
            },
        }
    }

    /// Appends a lap to a running timer whose clock reads `slice`.
    /// Refused with `NotRunning` on a stopped timer.
    pub fn lap_after(&mut self, slice: Duration, label: Option<String>) -> (r: Result<
        (),
        TimerError,
    >)
        requires
            old(self).wf(),
            old(self)@.running ==> old(self)@.laps.len() < u32::MAX,
        ensures
            final(self).wf(),
            !old(self)@.running ==> r == Err::<(), TimerError>(
                TimerError(TimerErrorKind::NotRunning),
            ) && *final(self) == *old(self),
            old(self)@.running ==> r is Ok && final(self)@ == old(self)@.lapped_after(
                duration_nanos(slice),
                label_view(label),
            ),
            final(self)@ == step(
                old(self)@,
                (Call::Lap { slice: duration_nanos(slice), label: label_view(label) }),
            ),
    {
        if !self.running {
            return Err(TimerError(TimerErrorKind::NotRunning));
        }
        let index: u32 = (self.laps.len() + 1) as u32;
        let at_ms: u128 = clock::as_millis(self.elapsed_after(slice));
        let lap = Lap { index, at_ms, label };
        self.laps.push(lap);
        assert(lap_views(self.laps@) =~= lap_views(old(self).laps@).push(lap@));
        Ok(())
    }

    /// Appends a lap at the present moment. Refused with `NotRunning` on a
    /// stopped timer.
    pub fn lap(&mut self, label: Option<String>) -> (r: Result<(), TimerError>)
        requires
            old(self).wf(),
            old(self)@.running ==> old(self)@.laps.len() < u32::MAX,
        ensures
            final(self).wf(),
            !old(self)@.running ==> r == Err::<(), TimerError>(
                TimerError(TimerErrorKind::NotRunning),
            ) && *final(self) == *old(self),
            old(self)@.running ==> r is Ok && exists|slice: nat|
                final(self)@ == old(self)@.lapped_after(slice, label_view(label)),
    {
        match self.origin {
            Some(origin) => {
                let slice = clock::elapsed_since(&origin);
                self.lap_after(slice, label)
            },
            None => Err(TimerError(TimerErrorKind::NotRunning)),
        }
    }

    /// The laps recorded since the last reset, oldest first.
    pub fn laps(&self) -> (laps: &[Lap])
        ensures
            lap_views(laps@) == self@.laps,
    {
        self.laps.as_slice()
    }
}

impl Default for Timer {
    fn default() -> (t: Timer)
        ensures
            t.wf(),
            t@ == TimerView::fresh(),
    {
        Timer::new()
    }
}

} // verus!
