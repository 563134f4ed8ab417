//! Small value types: a `u32` wrapper whose addition wraps around, and a
//! ticket title that can only be built through a validating conversion.

pub mod title;
pub mod wrapping;
