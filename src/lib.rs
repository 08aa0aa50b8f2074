//! Rendering of a parsed markdown tree: a styled HTML page, a single-page
//! text layout, and the decisions that drive external PDF producers.

pub mod tree;
pub mod layout;
pub mod html;
pub mod markdown;
pub mod error;
pub mod config;
pub mod subprocess;
pub mod browser;
