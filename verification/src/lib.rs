//! A stopwatch engine with laps, and the pure parts of the command-line
//! front end built on it: command parsing, duration formatting, lap
//! reports and the frames of the live display.

pub mod clock;
pub mod command;
pub mod error;
pub mod export;
pub mod format;
pub mod laws;
pub mod measure;
pub mod model;
pub mod report;
pub mod session;
pub mod text;
pub mod timer;
pub mod watch;

pub use error::TimerError;
pub use error::TimerErrorKind;
pub use timer::Lap;
pub use timer::Timer;
pub use format::format_duration;
