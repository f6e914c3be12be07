//! A Pomodoro countdown timer as a small state machine.
//!
//! The timer is either idle, running or paused, and counts a remaining number
//! of seconds down from [`INITIAL_SECONDS`]. Three events drive it: the
//! start/pause button, the one-second tick and the reset button. A front end
//! renders [`TimerController::display_label`] and
//! [`TimerController::button_label`], and keeps its tick source alive exactly
//! while [`TimerController::is_active`] holds.
//!
//! Every executable function is verified against [`TimerModel`], the
//! mathematical model of the machine.

pub mod controller;
pub mod label;
pub mod laws;
pub mod model;

pub use controller::TimerController;
pub use label::format_label;
pub use model::{Message, TimerModel, TimerState, INITIAL_SECONDS, TICK_PERIOD_SECONDS};
