//! Input-method-agnostic action state: which abstract actions are pressed,
//! for how long, and what they were doing before.

pub mod action_state;
pub mod actionlike;
pub mod button_state;
pub mod thresholds;
pub mod time;

pub use action_state::{ActionDiff, ActionState, ActionStateDriver};
pub use actionlike::{enumerates, Actionlike};
pub use button_state::{Timing, VirtualButtonState};
pub use thresholds::{ButtonThresholds, ThresholdError, FULL_SCALE};
pub use time::{Duration, Instant};
