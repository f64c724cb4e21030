//! Structural extraction of a daily-wallpaper feature from a web page.
//!
//! The crate searches a parsed document tree for a title, a copyright line and
//! a downloadable image reference, and turns a page address into the site root
//! against which that reference is resolved.

pub mod app_config;
pub mod extractor;
pub mod markup;
pub mod matcher;
pub mod orchestrator;
pub mod tree;
pub mod url_base;
