//! Depth testing state.

use vstd::prelude::*;

use super::consts;
use super::float_bits::{bits_equal, f32_bits_equal};
use vstd::std_specs::cmp::PartialEqSpecImpl;

verus! {

/// The IEEE 754 bit pattern of the `f32` value `1.0`.
pub const F32_ONE_BITS: u32 = 0x3F80_0000;

/// Depth testing state.
///
/// `range_near` and `range_far` hold the IEEE 754 bit patterns (as given by
/// `f32::to_bits`) of the depth range. Two depth tests are `==` when their
/// ranges are equal as `f32` values (see [`f32_bits_equal`]) and all else
/// is the same.
#[derive(Copy, Clone, Debug)]
pub struct DepthTest {
    pub func: DepthFunc,
    pub range_near: u32,
    pub range_far: u32,
    pub write: bool,
}

/// Whether two depth tests are equal, their ranges compared as `f32`
/// values.
pub open spec fn depth_tests_equal(a: DepthTest, b: DepthTest) -> bool {
    &&& a.func == b.func
    &&& f32_bits_equal(a.range_near, b.range_near)
    &&& f32_bits_equal(a.range_far, b.range_far)
    &&& a.write == b.write
}

impl PartialEq for DepthTest {
    fn eq(&self, other: &Self) -> (r: bool) {
        self.func == other.func && bits_equal(self.range_near, other.range_near) && bits_equal(
            self.range_far,
            other.range_far,
        ) && self.write == other.write
    }
}

impl PartialEqSpecImpl for DepthTest {
    open spec fn obeys_eq_spec() -> bool {
        true
    }

    open spec fn eq_spec(&self, other: &DepthTest) -> bool {
        depth_tests_equal(*self, *other)
    }
}

/// The comparison that a fragment's depth must pass.
#[derive(Copy, Clone, Debug, PartialEq, Eq, Structural)]
pub enum DepthFunc {
    Never,
    Less,
    Equal,
    LessOrEqual,
    Greater,
    NotEqual,
    GreaterOrEqual,
    Always,
}

/// The GL enumerant of a depth comparison.
pub open spec fn depth_func_gl(func: DepthFunc) -> u32 {
    match func {
        DepthFunc::Never => consts::NEVER,
        DepthFunc::Less => consts::LESS,
        DepthFunc::Equal => consts::EQUAL,
        DepthFunc::LessOrEqual => consts::LEQUAL,
        DepthFunc::Greater => consts::GREATER,
        DepthFunc::NotEqual => consts::NOTEQUAL,
        DepthFunc::GreaterOrEqual => consts::GEQUAL,
        DepthFunc::Always => consts::ALWAYS,
    }
}

impl Default for DepthTest {
    /// `Less` over the full range `0.0..1.0`, writing depth.
    fn default() -> (d: Self)
        ensures
            d == (DepthTest {
                func: DepthFunc::Less,
                range_near: 0,
                range_far: F32_ONE_BITS,
                write: true,
            }),
    {
        Self { func: DepthFunc::default(), range_near: 0, range_far: F32_ONE_BITS, write: true }
    }
}

impl DepthTest {
    /// The default depth test, but without writing depth.
    pub fn read_only() -> (d: Self)
        ensures
            d == (DepthTest {
                func: DepthFunc::Less,
                range_near: 0,
                range_far: F32_ONE_BITS,
                write: false,
            }),
    {
        Self { write: false, ..DepthTest::default() }
    }
}

impl Default for DepthFunc {
    /// `Less`.
    fn default() -> (f: Self)
        ensures
            f == DepthFunc::Less,
    {
        DepthFunc::Less
    }
}

impl DepthFunc {
    /// The GL enumerant of this comparison.
    pub fn to_gl(self) -> (r: u32)
        ensures
            r == depth_func_gl(self),
    {
        match self {
            DepthFunc::Never => consts::NEVER,
            DepthFunc::Less => consts::LESS,
            DepthFunc::Equal => consts::EQUAL,
            DepthFunc::LessOrEqual => consts::LEQUAL,
            DepthFunc::Greater => consts::GREATER,
            DepthFunc::NotEqual => consts::NOTEQUAL,
            DepthFunc::GreaterOrEqual => consts::GEQUAL,
            DepthFunc::Always => consts::ALWAYS,
        }
    }
}

/// Distinct depth comparisons have distinct GL enumerants.
pub proof fn lemma_depth_func_gl_injective(a: DepthFunc, b: DepthFunc)
    ensures
        depth_func_gl(a) == depth_func_gl(b) ==> a == b,
{
}

/// The GL enumerant of each value, against the GL's constants: each constant names exactly one value.
pub proof fn lemma_depth_func_gl_values(x: DepthFunc)
    ensures
        (depth_func_gl(x) == consts::NEVER) == (x == DepthFunc::Never),
        (depth_func_gl(x) == consts::LESS) == (x == DepthFunc::Less),
        (depth_func_gl(x) == consts::EQUAL) == (x == DepthFunc::Equal),
        (depth_func_gl(x) == consts::LEQUAL) == (x == DepthFunc::LessOrEqual),
        (depth_func_gl(x) == consts::GREATER) == (x == DepthFunc::Greater),
        (depth_func_gl(x) == consts::NOTEQUAL) == (x == DepthFunc::NotEqual),
        (depth_func_gl(x) == consts::GEQUAL) == (x == DepthFunc::GreaterOrEqual),
        (depth_func_gl(x) == consts::ALWAYS) == (x == DepthFunc::Always),
{
}

} // verus!
