//! A Pomodoro countdown timer core: the mode state machine, the per-tick
//! notification policy, and the driver-loop decisions, all verified.
//!
//! The library owns the logic only; sending the notifications to the display
//! device, argument handling and signal handling live outside it.

pub mod driver;
pub mod text;
pub mod timer;
