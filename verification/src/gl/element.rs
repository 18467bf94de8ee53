//! Element (index) types of element buffers.

use vstd::prelude::*;

use super::consts;

verus! {

/// A type that element buffers can hold.
pub trait Element: Sized {
    /// The GL enumerant of the type.
    spec fn spec_gl_type() -> u32;

    /// The GL enumerant of the type.
    fn to_gl() -> (r: u32)
        ensures
            r == Self::spec_gl_type(),
    ;
}

impl Element for u32 {
    open spec fn spec_gl_type() -> u32 {
        consts::UNSIGNED_INT
    }

    fn to_gl() -> (r: u32) {
        consts::UNSIGNED_INT
    }
}

impl Element for u16 {
    open spec fn spec_gl_type() -> u32 {
        consts::UNSIGNED_SHORT
    }

    fn to_gl() -> (r: u32) {
        consts::UNSIGNED_SHORT
    }
}

} // verus!
