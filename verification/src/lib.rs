//! Timekeeping core of a terminal time-management tool: stopwatch, countdown
//! timer, wall clock and Pomodoro cycle.

pub mod app;
pub mod cli;
pub mod clock;
pub mod digits;
pub mod display;
pub mod figlet;
pub mod session;
pub mod utils;
pub mod wall_clock;
