//! The error contract shared by the engine and the command layer.

use vstd::prelude::*;

verus! {

/// Why an operation was refused.
#[derive(Debug, Clone, Copy, PartialEq, Eq, Structural)]
pub enum TimerErrorKind {
    /// `start` on a timer that is running.
    AlreadyRunning,
    /// `stop` or `lap` on a timer that is stopped.
    NotRunning,
    /// A command that is not in the vocabulary, or malformed arguments.
    /// The engine itself never raises it.
    Invalid,
}

/// A refused operation. The timer it was called on is left as it was.
#[derive(Debug, Clone, Copy, PartialEq, Eq, Structural)]
pub struct TimerError(pub TimerErrorKind);

} // verus!
