//! The live display: the frames that show a timer ticking, one for each
//! poll, until the display is cancelled.
//!
//! The display never stops the timer and never changes it once it is
//! attached; the caller owns the loop, the pause between polls and the
//! signal that cancels.

use crate::clock::duration_nanos;
use crate::format::clock_text;
use crate::format::format_duration;
use crate::model::millis_of;
use crate::timer::Timer;
use std::time::Duration;
use std::time::Instant;
use vstd::prelude::*;
use vstd::string::StringExecFns;

verus! {

/// The pause between two polls, in milliseconds.
pub const POLL_INTERVAL_MS: u64 = 100;

/// One rendering of the display.
#[derive(Debug, Clone, PartialEq, Eq)]
pub struct Frame {
    /// What to write to the terminal.
    pub text: String,
    /// Whether the display ends with this frame.
    pub last: bool,
}

/// The text of a frame that shows `ms` milliseconds: a carriage return, so
/// that it overwrites the frame before it, and the time. The last frame
/// ends the line and shows the cursor again.
pub open spec fn frame_text(ms: nat, last: bool) -> Seq<char> {
    if last {
        "\r"@ + clock_text(ms) + "\n\x1b[?25h"@
    } else {
        "\r"@ + clock_text(ms)
    }
}

/// What to write before the first frame: a hint, and the cursor hidden.
pub fn prologue() -> (text: &'static str)
    ensures
        text@ == "[Press Enter to switch command]\n\x1b[?25l"@,
{
    "[Press Enter to switch command]\n\x1b[?25l"
}

/// Attaches the display to a timer: a stopped timer is started, a running
/// one is left as it is.
pub fn attach(timer: &mut Timer)
    requires
        old(timer).wf(),
    ensures
        final(timer).wf(),
        final(timer)@.running,
        old(timer)@.running ==> *final(timer) == *old(timer),
        !old(timer)@.running ==> exists|origin: Instant|
            final(timer)@ == old(timer)@.started_at(origin),
{
    let _ = timer.start();
}

/// The frame for a timer that shows `elapsed`.
pub fn render_frame(elapsed: Duration, last: bool) -> (text: String)
    ensures
        text@ == frame_text(millis_of(duration_nanos(elapsed)), last),
{
    let mut text = String::from_str("\r");
    let time = format_duration(elapsed);
    text.append(time.as_str());
    if last {
        text.append("\n\x1b[?25h");
    }
    text
}

/// Polls the timer and renders it. `cancelled` is what the poll saw of the
/// signal that ends the display: once it is raised the frame is the last.
pub fn next_frame(timer: &Timer, cancelled: bool) -> (frame: Frame)
    requires
        timer.wf(),
    ensures
        frame.last == cancelled,
        exists|slice: nat|
            frame.text@ == frame_text(millis_of(timer@.elapsed_after(slice)), cancelled),
{
    let elapsed = timer.elapsed();
    Frame { text: render_frame(elapsed, cancelled), last: cancelled }
}

} // verus!
