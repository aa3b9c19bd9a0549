//! The document tree of a Hurl file, and the text that each node stands for.

pub mod primitive;
pub mod template;
pub mod value;
pub mod json;
pub mod multiline;
pub mod filter;
pub mod query;
pub mod option;
pub mod predicate;
pub mod file;
pub mod section;
