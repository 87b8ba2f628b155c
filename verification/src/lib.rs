//! Temperature scales: Kelvin, Celsius and Fahrenheit.
//!
//! The library knows the three units, the arithmetic that takes a reading from
//! one unit to another, the rule by which readings of different units are
//! added, and how a reading is written out. It holds no scalar itself: a
//! conversion is handed out as a short list of steps over ratios of whole
//! numbers, and the caller carries the steps out in the number type it has.
//!
//! What the steps compute is stated over the real numbers. There the
//! conversions agree with one another and a round trip changes nothing; and
//! whoever carries the steps out in arithmetic that rounds as double precision
//! does ends within a part in a thousand million of where a round trip began.

pub mod convert;
pub mod laws;
pub mod rounding;
pub mod step;
pub mod sum;
pub mod unit;

pub use crate::convert::Conversion;
pub use crate::step::{Ratio, Step};
pub use crate::sum::Sum;
pub use crate::unit::Unit;
