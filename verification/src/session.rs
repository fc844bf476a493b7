//! One command applied to a timer, and what is left for the front end to
//! do about it.

use crate::command::command_of;
use crate::command::parse_command;
use crate::command::words_of;
use crate::command::Command;
use crate::command::CommandView;
use crate::command::ExportFormat;
use crate::error::TimerError;
use crate::error::TimerErrorKind;
use crate::export::csv_text;
use crate::export::export_csv;
use crate::format::clock_text;
use crate::format::format_duration;
use crate::model::millis_of;
use crate::model::TimerView;
use crate::report::lap_rows;
use crate::report::rows_of;
use crate::report::row_views;
use crate::report::LapRow;
use crate::text::string_views;
use crate::timer::Timer;
use crate::watch::attach;
use std::time::Instant;
use vstd::prelude::*;

verus! {

/// What the front end does after a command was accepted.
#[derive(Debug, Clone, PartialEq, Eq)]
pub enum Outcome {
    /// Nothing: the command was all effect.
    Done,
    /// Print the elapsed time, given as `HH:MM:SS.mmm`.
    Elapsed(String),
    /// Run the live display on the timer, which is running.
    Watch,
    /// Print the lap table with these rows.
    Laps(Vec<LapRow>),
    /// Print the lap log, given as CSV text.
    ExportCsv(String),
    /// Serialise the lap log as JSON and print it.
    ExportJson,
    /// Run the program with these words as its command line, and time it.
    Measure(Vec<String>),
}

/// A refused command: the error, and the timer as it was.
pub open spec fn refused(
    before: Timer,
    after: Timer,
    r: Result<Outcome, TimerError>,
    kind: TimerErrorKind,
) -> bool {
    r == Err::<Outcome, TimerError>(TimerError(kind)) && after == before
}

/// What `command` makes of the timer `before`, and what it answers.
pub open spec fn applied(
    before: Timer,
    command: CommandView,
    after: Timer,
    r: Result<Outcome, TimerError>,
) -> bool {
    match command {
        CommandView::Start => if before@.running {
            refused(before, after, r, TimerErrorKind::AlreadyRunning)
        } else {
            r == Ok::<Outcome, TimerError>(Outcome::Done) && exists|origin: Instant|
                after@ == before@.started_at(origin)
        },
        CommandView::Stop => if !before@.running {
            refused(before, after, r, TimerErrorKind::NotRunning)
        } else {
            r == Ok::<Outcome, TimerError>(Outcome::Done) && exists|slice: nat|
                after@ == before@.stopped_after(slice)
        },
        CommandView::Reset => r == Ok::<Outcome, TimerError>(Outcome::Done) && after@
            == TimerView::fresh(),
        CommandView::Elapsed => {
            &&& after == before
            &&& r matches Ok(Outcome::Elapsed(text))
            &&& exists|slice: nat| text@ == clock_text(millis_of(before@.elapsed_after(slice)))
        },
        CommandView::Watch => r == Ok::<Outcome, TimerError>(Outcome::Watch) && after@.running
            && if before@.running {
            after == before
        } else {
            exists|origin: Instant| after@ == before@.started_at(origin)
        },
        CommandView::Lap(label) => if !before@.running {
            refused(before, after, r, TimerErrorKind::NotRunning)
        } else if before@.laps.len() >= u32::MAX {
            refused(before, after, r, TimerErrorKind::Invalid)
        } else {
            r == Ok::<Outcome, TimerError>(Outcome::Done) && exists|slice: nat|
                after@ == before@.lapped_after(slice, label)
        },
        CommandView::Laps => {
            &&& after == before
            &&& r matches Ok(Outcome::Laps(rows))
            &&& row_views(rows@) == rows_of(before@.laps)
        },
        CommandView::Export(ExportFormat::Json) => {
            &&& after == before
            &&& r == Ok::<Outcome, TimerError>(Outcome::ExportJson)
        },
        CommandView::Export(ExportFormat::Csv) => {
            &&& after == before
            &&& r matches Ok(Outcome::ExportCsv(text))
            &&& text@ == csv_text(before@.laps)
        },
        CommandView::Measure(words) => {
            &&& after == before
            &&& r matches Ok(Outcome::Measure(cmdline))
            &&& string_views(cmdline@) == words
        },
    }
}

/// Applies one command to the timer. The commands that act on the timer
/// are refused as the timer refuses them, and `lap` with `Invalid` once the
/// lap log holds as many laps as an index can count; a refused command
/// leaves the timer as it was.
pub fn apply(timer: &mut Timer, command: Command) -> (r: Result<Outcome, TimerError>)
    requires
        old(timer).wf(),
    ensures
        final(timer).wf(),
        applied(*old(timer), command@, *final(timer), r),
{
    match command {
        Command::Start => match timer.start() {
            Ok(()) => Ok(Outcome::Done),
            Err(e) => Err(e),
        },
        Command::Stop => match timer.stop() {
            Ok(()) => Ok(Outcome::Done),
            Err(e) => Err(e),
        },
        Command::Reset => {
            timer.reset();
            Ok(Outcome::Done)
        },
        Command::Elapsed => Ok(Outcome::Elapsed(format_duration(timer.elapsed()))),
        Command::Watch => {
            attach(timer);
            Ok(Outcome::Watch)
        },
        Command::Lap(label) => {
            if !timer.is_running() {
                Err(TimerError(TimerErrorKind::NotRunning))
            } else if timer.laps().len() >= u32::MAX as usize {
                Err(TimerError(TimerErrorKind::Invalid))
            } else {
                match timer.lap(label) {
                    Ok(()) => Ok(Outcome::Done),
                    Err(e) => Err(e),
                }
            }
        },
        Command::Laps => Ok(Outcome::Laps(lap_rows(timer.laps()))),
        Command::Export(ExportFormat::Json) => Ok(Outcome::ExportJson),
        Command::Export(ExportFormat::Csv) => Ok(Outcome::ExportCsv(export_csv(timer.laps()))),
        Command::Measure(cmdline) => Ok(Outcome::Measure(cmdline)),
    }
}

/// Reads one command from a line of input and applies it to the timer. A
/// line that names no command is refused with `Invalid`.
pub fn dispatch(timer: &mut Timer, input: &str) -> (r: Result<Outcome, TimerError>)
    requires
        old(timer).wf(),
    ensures
        final(timer).wf(),
        match command_of(words_of(input@)) {
            Some(command) => applied(*old(timer), command, *final(timer), r),
            None => refused(*old(timer), *final(timer), r, TimerErrorKind::Invalid),
        },
{
    match parse_command(input) {
        Ok(command) => apply(timer, command),
        Err(e) => Err(e),
    }
}

/// The exit code of a batch run: 2 where no command was given, 1 where a
/// command was refused, 0 where all were accepted.
pub open spec fn batch_code(commands: nat, refused: bool) -> int {
    if commands == 0 {
        2
    } else if refused {
        1
    } else {
        0
    }
}

/// The exit code of a batch run of `commands` commands, `failed` telling
/// whether one of them was refused.
pub fn batch_exit_code(commands: usize, failed: bool) -> (code: u8)
    ensures
        code == batch_code(commands as nat, failed),
{
    if commands == 0 {
        2
    } else if failed {
        1
    } else {
        0
    }
}

} // verus!
