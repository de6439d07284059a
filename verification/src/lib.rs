//! Unix time as fractional seconds: timestamps kept to nanosecond
//! precision as whole seconds since the epoch plus a sub-second remainder.

mod clock;
pub mod duration;
pub mod seconds;

pub use duration::Duration;
pub use seconds::Seconds;
