//! Supervisory control for a small actuator test rig.
//!
//! Quantities are signed fixed-point numbers counted in micro-units
//! (micrometres, microvolts); time is counted in milliseconds.

pub mod backend;
pub mod clock;
pub mod config;
pub mod executor;
pub mod fabric;
pub mod history;
pub mod nodes;
pub mod quantity;
pub mod signals;
pub mod state;
pub mod status;
pub mod supervisor;

pub use crate::backend::DeviceFault;
pub use crate::config::Backend;
pub use crate::config::Config;
pub use crate::config::Limits;
pub use crate::executor::CycleOutcome;
pub use crate::executor::ExecState;
pub use crate::executor::Fault;
pub use crate::quantity::Target;
pub use crate::state::Measured;
pub use crate::state::SharedState;
pub use crate::status::ControlStatus;
pub use crate::supervisor::Action;
pub use crate::supervisor::Event;
