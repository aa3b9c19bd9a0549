//! Format-preserving HTML rendering of Hurl documents.
//!
//! A parsed Hurl document keeps every character of the text it was read from.
//! This crate renders such a document as syntax-highlighted HTML and proves
//! that the rendering loses nothing: removing the markup from the output gives
//! the document's text back.

pub mod ast;
pub mod markup;
pub mod text;
pub mod format;
pub mod runner;
