//! The error type of GL operations.

use vstd::prelude::*;

verus! {

/// An error reported by the GL or by its Rust binding.
#[derive(Debug, Clone)]
pub enum Error {
    /// The binding failed to create an object; the message is the binding's.
    Glow(String),
    /// The GL reported a failure, e.g. of compiling a shader.
    OpenGL(String),
}

} // verus!
