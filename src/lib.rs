//! Descriptive statistics over a finite sample of real values.
//!
//! Values enter the library as IEEE-754 binary64 bit patterns and are mapped
//! to unsigned order keys whose integer order is the total order of the
//! values. Every order statistic (minimum, maximum, the two middle elements,
//! the nearest-rank percentiles) is computed and proved over those keys.
pub mod key;
pub mod sample;
pub mod sort;
pub mod stats;

pub use key::{is_nan_bits, key_bits, order_key};
pub use sample::{accept_line, LineVerdict};
pub use sort::sorted_copy;
pub use stats::{calculate_statistics, median_positions, percentile_index, Statistics};
