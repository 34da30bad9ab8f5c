//! The state of a double pendulum between steps: its two bodies and the
//! bounded path traced by the free end of the lower one.
pub mod chain;
pub mod trace;

pub use chain::{BodyRole, DoublePendulum};
pub use trace::{Trace, TRACE_CAPACITY};
