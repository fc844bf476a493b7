//! Timing an external program: the timer around the run, the line that
//! reports it, and the exit code that is passed on.

use crate::clock::duration_nanos;
use crate::error::TimerError;
use crate::error::TimerErrorKind;
use crate::format::clock_text;
use crate::format::format_duration;
use crate::model::millis_of;
use crate::model::TimerView;
use crate::text::join_words;
use crate::text::joined;
use crate::text::string_views;
use crate::timer::Timer;
use std::time::Duration;
use std::time::Instant;
use vstd::prelude::*;
use vstd::string::StringExecFns;

verus! {

/// What running the program came to, as the front end saw it.
#[derive(Debug, Clone, Copy, PartialEq, Eq, Structural)]
pub enum Run {
    /// The program could not be launched.
    NotLaunched,
    /// The program ran to its end, with this exit code if it left one.
    Ended(Option<i32>),
}

/// A finished measurement.
#[derive(Debug, Clone, PartialEq, Eq)]
pub struct Measured {
    /// The command line and the time it took, for printing.
    pub report: String,
    /// The exit code to end with: the program's own, or 1 where it has
    /// none.
    pub exit_code: i32,
}

/// The exit code that is passed on for a program that ended with `status`.
pub open spec fn exit_code_of(status: Option<i32>) -> int {
    match status {
        Some(code) => code as int,
        None => 1,
    }
}

/// The report line: the command line, ` took `, and the time.
pub open spec fn report_text(cmdline: Seq<Seq<char>>, ms: nat) -> Seq<char> {
    joined(cmdline) + " took "@ + clock_text(ms)
}

/// A fresh timer, started: the stopwatch for one run of a program.
pub fn begin_measure() -> (timer: Timer)
    ensures
        timer.wf(),
        exists|origin: Instant| timer@ == TimerView::fresh().started_at(origin),
{
    let mut timer = Timer::new();
    let _ = timer.start();
    timer
}

/// The report line for a program that took `elapsed`.
pub fn measure_report(cmdline: &[String], elapsed: Duration) -> (text: String)
    ensures
        text@ == report_text(string_views(cmdline@), millis_of(duration_nanos(elapsed))),
{
    let mut text = join_words(cmdline);
    text.append(" took ");
    let time = format_duration(elapsed);
    text.append(time.as_str());
    text
}

/// Ends a measurement. A program that could not be launched is refused
/// with `Invalid`; one that ran is reported with the time on the timer once
/// stopped, and its exit code is passed on.
pub fn finish_measure(timer: &mut Timer, cmdline: &[String], run: Run) -> (r: Result<
    Measured,
    TimerError,
>)
    requires
        old(timer).wf(),
        old(timer)@.running,
    ensures
        final(timer).wf(),
        run is NotLaunched ==> r == Err::<Measured, TimerError>(
            TimerError(TimerErrorKind::Invalid),
        ) && *final(timer) == *old(timer),
        run matches Run::Ended(status) ==> r matches Ok(measured) && measured.exit_code
            == exit_code_of(status) && exists|slice: nat|
            final(timer)@ == old(timer)@.stopped_after(slice) && measured.report@ == report_text(
                string_views(cmdline@),
                millis_of(old(timer)@.stopped_after(slice).accumulated),
            ),
{
    match run {
        Run::NotLaunched => Err(TimerError(TimerErrorKind::Invalid)),
        Run::Ended(status) => {
            let _ = timer.stop();
            let report = measure_report(cmdline, timer.elapsed());
            let exit_code: i32 = match status {
                Some(code) => code,
                None => 1,
            };
            Ok(Measured { report, exit_code })
        },
    }
}

} // verus!
