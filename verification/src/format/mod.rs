//! Rendering a document tree as HTML.

pub mod spans;
pub mod render;
pub mod html;
pub mod style;
pub mod roundtrip;
pub mod roundtrip_tree;
