//! Rendering support.

pub mod hal;
