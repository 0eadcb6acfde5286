//! Small ergonomics helpers: trimmed line input, swaps, timing a unit of
//! work and projecting a duration into a chosen time unit.

pub mod conversion;
pub mod duration;
pub mod line;
pub mod swap;
pub mod timing;

pub use conversion::{time_conversion, time_conversion_with_unit, TimeUnit};
pub use duration::Duration;
pub use line::{ends_wait_enter, normalize_line};
pub use swap::{swap, swap_xor, XorAssign};
pub use timing::{measure_time, measure_time_with_value};
