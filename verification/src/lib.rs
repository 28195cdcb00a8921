//! A calculator core: three-token arithmetic expressions, fixed unit and
//! number-base conversions, and a bounded history backed by a CSV log.

pub mod expression;
pub mod history;
pub mod log;
pub mod menu;
pub mod radix;
pub mod text;
pub mod units;
