//! Clocks derived from the CPU clock.
pub mod clock_divider;
pub mod prescaled_timer;
pub mod timer;

pub use clock_divider::ClockDivider;
pub use prescaled_timer::{PrescaledTimer, PrescaledTimerBuilder};
pub use timer::Timer;
