//! `malen` is a library for 2D web game development on top of WebGL 2.
//!
//! This crate holds the parts of the library that decide things: the
//! mapping of keyboard codes to keys, the bookkeeping of pressed keys, the
//! assembly of shader sources, the layout of framebuffer attachments, the
//! parameters of draw calls and the statistics of GPU timers. Each of them
//! carries a contract that Verus checks.

pub mod gl;
pub mod input;
pub mod light;
pub mod rank_set;
pub mod text;
