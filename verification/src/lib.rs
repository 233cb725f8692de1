//! NTP time arithmetic: timestamps that roll over at era boundaries,
//! saturating signed durations in 32.32 fixed point, poll intervals,
//! and the conversions between them and their wire formats.

pub mod arith;
pub mod duration;
pub mod instant;
pub mod laws;
pub mod poll;
pub mod scaling;
pub mod std_time;
pub mod timestamp;

pub use duration::NtpDuration;
pub use instant::NtpInstant;
pub use poll::{FrequencyTolerance, PollInterval};
pub use timestamp::NtpTimestamp;
