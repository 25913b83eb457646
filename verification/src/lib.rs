//! A BBR-style congestion controller with machine-checked contracts.
//!
//! The controller follows the bottleneck bandwidth and the minimum round-trip
//! time of a path through four modes and derives from them a congestion
//! window and a pacing rate. Every transition and every update rule is stated
//! as a function over a plain record of the controller's state and proved of
//! the code that runs.
//!
//! The controller reads no clock and owns no estimator: its caller hands it
//! the time, the minimum round-trip time and the bandwidth estimate as plain
//! values.

pub mod time;
pub mod gain;
pub mod state;
pub mod transition;
pub mod window;
pub mod events;
pub mod entropy;
pub mod controller;
pub mod laws;

pub use controller::{BbrV2, BbrV2Config};
pub use events::{BandwidthSample, ControllerMetrics};
pub use gain::Gain;
pub use state::{calculate_min_window, Mode, State};
pub use time::{Duration, Instant};
