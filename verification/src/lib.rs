//! A counter over `i32` whose every change saturates: a result that the type
//! cannot hold becomes the nearest bound, and no operation fails or wraps.

pub mod counter;
pub mod saturating;

pub use crate::counter::Counter;
