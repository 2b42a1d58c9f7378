//! A Pomodoro timer engine: a countdown bound to a three-phase cycle of work
//! and breaks, driven one event at a time.
//!
//! The engine is a reducer.  [`Timer::update`] applies one event and hands
//! back the notice to show, if the event ended an interval; showing it, and
//! delivering the ticks, is left to the caller.

pub mod clock;
pub mod lemmas;
pub mod model;
pub mod text;

pub use clock::{get_cycle_duration, PomodoroCycle, Timer, TimerMessage};
