//! A countdown-timer engine: a pausable countdown, the work/break cycle built
//! on it, the controller that turns input events into actions, and the relay
//! that mirrors those actions between participants.
//!
//! Whatever depends on the clock comes twice: a function that reads the clock
//! itself, and one with `_at` in its name that is handed the reading and says
//! exactly what follows from it.

pub mod app;
pub mod clock;
pub mod event;
pub mod parser;
pub mod pomodoro;
pub mod relay;
pub mod text;
pub mod timer;
