//! A monotonic clock that does not advance while the machine is suspended,
//! the saturating arithmetic on its instants, and the decisions of a sleep
//! and a timeout that are measured against it.

pub mod duration;
pub mod instant;
pub mod laws;
pub mod platform;
pub mod wait;

pub use duration::{duration_nanos, duration_secs, duration_subsec_nanos, total_nanos};
pub use instant::{SuspendUnawareInstant, NANOS_PER_SECOND};
pub use wait::{sleep_step, timeout_result, deadline_after, Finished, SleepStep, TimedOutError};
