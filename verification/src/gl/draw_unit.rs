//! Primitive modes and the element ranges of draw units.

use vstd::prelude::*;

use super::consts;

verus! {

/// The kind of primitive that a draw call assembles from its elements.
#[derive(Debug, Clone, Copy, PartialEq, Eq, Structural)]
pub enum PrimitiveMode {
    Triangle,
    Line,
}

/// The GL enumerant of a primitive mode.
pub open spec fn primitive_mode_gl(mode: PrimitiveMode) -> u32 {
    match mode {
        PrimitiveMode::Line => consts::LINES,
        PrimitiveMode::Triangle => consts::TRIANGLES,
    }
}

impl PrimitiveMode {
    /// The GL enumerant of this mode.
    pub fn to_gl(self) -> (r: u32)
        ensures
            r == primitive_mode_gl(self),
    {
        match self {
            PrimitiveMode::Line => consts::LINES,
            PrimitiveMode::Triangle => consts::TRIANGLES,
        }
    }
}

/// Whether `start..end` is a valid element range into a buffer of
/// `buffer_len` elements, as a draw unit demands on creation.
pub open spec fn element_range_valid(start: usize, end: usize, buffer_len: usize) -> bool {
    start <= end && end <= buffer_len
}

/// Checks that `start..end` is a valid element range into a buffer of
/// `buffer_len` elements.
pub fn is_valid_element_range(start: usize, end: usize, buffer_len: usize) -> (r: bool)
    ensures
        r == element_range_valid(start, end, buffer_len),
{
    start <= end && end <= buffer_len
}

/// The GL enumerant of each value, against the GL's constants: each constant names exactly one value.
pub proof fn lemma_primitive_mode_gl_values(x: PrimitiveMode)
    ensures
        (primitive_mode_gl(x) == consts::LINES) == (x == PrimitiveMode::Line),
        (primitive_mode_gl(x) == consts::TRIANGLES) == (x == PrimitiveMode::Triangle),
{
}

} // verus!
