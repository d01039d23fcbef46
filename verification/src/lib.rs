//! A hardware-abstraction layer for a double-buffered, frame-synchronised
//! GPU render loop.
//!
//! The library decides *what* is asked of the GPU and in which order; every
//! native call is handed out as a plain description that the caller performs.

pub mod render;
