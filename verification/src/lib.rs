//! A mist-cycle scheduler: the timing state machine behind a plant-misting
//! control panel, with every transition stated as a contract and proved.
//!
//! [`MistScheduler`] decides when the solenoid valve of the misters opens
//! and closes. It does no I/O: each operation is given the clock reading it
//! needs and hands back the command for the solenoid driver. [`ControlPanel`]
//! puts the operator's buttons and sliders in front of it. The `model`
//! module holds the mathematics that the contracts speak of, and `laws`
//! what is proved of it.

pub mod config;
pub mod error;
pub mod laws;
pub mod model;
pub mod panel;
pub mod phase;
pub mod scheduler;
pub mod time;

pub use config::MistConfig;
pub use error::{DriverFault, SchedulerError};
pub use panel::{ControlPanel, PanelDisplay, PanelEvent};
pub use phase::{MistPhase, SolenoidCommand};
pub use scheduler::{MistScheduler, SchedulerState, TimerState};
pub use time::{Countdown, Duration, Instant};
