//! Values at run time, and the filter that makes a float of one.

pub mod error;
pub mod to_float;
pub mod value;
