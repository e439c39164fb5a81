//! Control core of a bowl dispensing machine.
//!
//! The library holds the decisions of the machine: the weight-feedback
//! dispense loop, the hatch motion protocol and the machine's run-state
//! cycle. Each is a state machine that is fed the outcome of the last
//! hardware operation and answers with the next one to perform, so the
//! program that owns the motors, the scale and the timers only carries
//! out what it is told.
//!
//! Units: masses are integer milligrams, motor speeds and distances are
//! thousandths of the motor's own unit, durations are milliseconds.

pub mod assets;
pub mod config;
pub mod cycle;
pub mod dispense;
pub mod hatch;
pub mod ingredients;
pub mod lights;
pub mod state;

pub use config::User;
pub use state::{DispenseType, UiRequest};
