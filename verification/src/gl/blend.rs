//! Blending state: operations, factors and their GL enumerants.

use vstd::prelude::*;

use super::consts;
use super::float_bits::{bits_equal, f32_bits_equal};
use vstd::std_specs::cmp::PartialEqSpecImpl;

verus! {

/// How the blended source and destination terms are combined.
#[derive(Copy, Clone, Debug, PartialEq, Eq, Structural, Hash)]
pub enum BlendOp {
    Add,
    Subtract,
    ReverseSubtract,
    Min,
    Max,
}

/// A factor that a source or destination term is multiplied with.
#[derive(Copy, Clone, Debug, PartialEq, Eq, Structural, Hash)]
pub enum BlendFactor {
    Zero,
    One,
    SrcColor,
    OneMinusSrcColor,
    DstColor,
    OneMinusDstColor,
    SrcAlpha,
    OneMinusSrcAlpha,
    DstAlpha,
    OneMinusDstAlpha,
    SrcAlphaSaturate,
    ConstantColor,
    OneMinusConstantColor,
    ConstantAlpha,
    OneMinusConstantAlpha,
}

/// The blend operations for the color and the alpha channels.
#[derive(Copy, Clone, Debug, PartialEq, Eq, Structural, Hash)]
pub struct BlendEquation {
    pub color: BlendOp,
    pub alpha: BlendOp,
}

/// The source and destination factors for the color and the alpha channels.
#[derive(Copy, Clone, Debug, PartialEq, Eq, Structural, Hash)]
pub struct BlendFunc {
    pub src_color: BlendFactor,
    pub src_alpha: BlendFactor,
    pub dst_color: BlendFactor,
    pub dst_alpha: BlendFactor,
}

/// Full blending state.
///
/// `constant_color` holds the IEEE 754 bit patterns (as given by
/// `f32::to_bits`) of the red, green, blue and alpha components of the
/// constant blend color. Two blends are `==` when their constant colors
/// are equal component by component as `f32` values (see
/// [`f32_bits_equal`]) and all else is the same.
#[derive(Copy, Clone, Debug)]
pub struct Blend {
    pub equation: BlendEquation,
    pub func: BlendFunc,
    pub constant_color: [u32; 4],
}

/// Whether two blends are equal, their constant colors compared as `f32`
/// values.
pub open spec fn blends_equal(a: Blend, b: Blend) -> bool {
    &&& a.equation == b.equation
    &&& a.func == b.func
    &&& forall|i: int| 0 <= i < 4 ==> f32_bits_equal(#[trigger] a.constant_color[i], b.constant_color[i])
}

impl PartialEq for Blend {
    fn eq(&self, other: &Self) -> (r: bool) {
        let a = self.constant_color;
        let b = other.constant_color;
        let colors = bits_equal(a[0], b[0]) && bits_equal(a[1], b[1]) && bits_equal(a[2], b[2])
            && bits_equal(a[3], b[3]);
        assert(colors == forall|i: int| 0 <= i < 4 ==> f32_bits_equal(#[trigger] a[i], b[i])) by {
            if colors {
                assert forall|i: int| 0 <= i < 4 implies f32_bits_equal(#[trigger] a[i], b[i]) by {
                    if i == 0 {
                    } else if i == 1 {
                    } else if i == 2 {
                    } else {
                    }
                }
            }
        }
        self.equation == other.equation && self.func == other.func && colors
    }
}

impl PartialEqSpecImpl for Blend {
    open spec fn obeys_eq_spec() -> bool {
        true
    }

    open spec fn eq_spec(&self, other: &Blend) -> bool {
        blends_equal(*self, *other)
    }
}

/// The GL enumerant of a blend operation.
pub open spec fn blend_op_gl(op: BlendOp) -> u32 {
    match op {
        BlendOp::Add => consts::FUNC_ADD,
        BlendOp::Subtract => consts::FUNC_SUBTRACT,
        BlendOp::ReverseSubtract => consts::FUNC_REVERSE_SUBTRACT,
        BlendOp::Max => consts::MAX,
        BlendOp::Min => consts::MIN,
    }
}

/// The GL enumerant of a blend factor.
pub open spec fn blend_factor_gl(factor: BlendFactor) -> u32 {
    match factor {
        BlendFactor::Zero => consts::ZERO,
        BlendFactor::One => consts::ONE,
        BlendFactor::SrcColor => consts::SRC_COLOR,
        BlendFactor::OneMinusSrcColor => consts::ONE_MINUS_SRC_COLOR,
        BlendFactor::DstColor => consts::DST_COLOR,
        BlendFactor::OneMinusDstColor => consts::ONE_MINUS_DST_COLOR,
        BlendFactor::SrcAlpha => consts::SRC_ALPHA,
        BlendFactor::OneMinusSrcAlpha => consts::ONE_MINUS_SRC_ALPHA,
        BlendFactor::DstAlpha => consts::DST_ALPHA,
        BlendFactor::OneMinusDstAlpha => consts::ONE_MINUS_DST_ALPHA,
        BlendFactor::SrcAlphaSaturate => consts::SRC_ALPHA_SATURATE,
        BlendFactor::ConstantColor => consts::CONSTANT_COLOR,
        BlendFactor::OneMinusConstantColor => consts::ONE_MINUS_CONSTANT_COLOR,
        BlendFactor::ConstantAlpha => consts::CONSTANT_ALPHA,
        BlendFactor::OneMinusConstantAlpha => consts::ONE_MINUS_CONSTANT_ALPHA,
    }
}

impl BlendEquation {
    /// The equation that uses `op` for both color and alpha.
    pub fn same(op: BlendOp) -> (eq: Self)
        ensures
            eq.color == op,
            eq.alpha == op,
    {
        Self { color: op, alpha: op }
    }

    /// Whether color and alpha use the same operation.
    pub fn is_same(self) -> (r: bool)
        ensures
            r == (self.color == self.alpha),
    {
        self.color == self.alpha
    }

    /// The value that [`BlendEquation::same`] returns.
    pub open spec fn same_spec(op: BlendOp) -> Self {
        Self { color: op, alpha: op }
    }
}

impl BlendFunc {
    /// The function that uses `src` for both source terms and `dst` for both
    /// destination terms.
    pub fn same(src: BlendFactor, dst: BlendFactor) -> (func: Self)
        ensures
            func == Self::same_spec(src, dst),
    {
        Self { src_color: src, src_alpha: src, dst_color: dst, dst_alpha: dst }
    }

    /// Whether the color and alpha channels use the same factors.
    pub fn is_same(self) -> (r: bool)
        ensures
            r == (self.src_color == self.src_alpha && self.dst_color == self.dst_alpha),
    {
        self.src_color == self.src_alpha && self.dst_color == self.dst_alpha
    }

    /// The value that [`BlendFunc::same`] returns.
    pub open spec fn same_spec(src: BlendFactor, dst: BlendFactor) -> Self {
        Self { src_color: src, src_alpha: src, dst_color: dst, dst_alpha: dst }
    }
}

impl Default for BlendEquation {
    /// Additive blending for both channels.
    fn default() -> (eq: Self)
        ensures
            eq == Self::same_spec(BlendOp::Add),
    {
        Self::same(BlendOp::Add)
    }
}

impl Default for BlendFunc {
    /// Classic alpha blending: `src * alpha + dst * (1 - alpha)`.
    fn default() -> (func: Self)
        ensures
            func == Self::same_spec(BlendFactor::SrcAlpha, BlendFactor::OneMinusSrcAlpha),
    {
        Self::same(BlendFactor::SrcAlpha, BlendFactor::OneMinusSrcAlpha)
    }
}

impl Default for Blend {
    /// Alpha blending with a transparent black constant color.
    fn default() -> (blend: Self)
        ensures
            blend.equation == BlendEquation::same_spec(BlendOp::Add),
            blend.func == BlendFunc::same_spec(BlendFactor::SrcAlpha, BlendFactor::OneMinusSrcAlpha),
            blend.constant_color@ == seq![0u32, 0u32, 0u32, 0u32],
    {
        let blend = Self {
            equation: BlendEquation::default(),
            func: BlendFunc::default(),
            constant_color: [0, 0, 0, 0],
        };
        assert(blend.constant_color@ =~= seq![0u32, 0u32, 0u32, 0u32]);
        blend
    }
}

impl BlendOp {
    /// The GL enumerant of this operation.
    pub fn to_gl(self) -> (r: u32)
        ensures
            r == blend_op_gl(self),
    {
        match self {
            BlendOp::Add => consts::FUNC_ADD,
            BlendOp::Subtract => consts::FUNC_SUBTRACT,
            BlendOp::ReverseSubtract => consts::FUNC_REVERSE_SUBTRACT,
            BlendOp::Max => consts::MAX,
            BlendOp::Min => consts::MIN,
        }
    }
}

impl BlendFactor {
    /// The GL enumerant of this factor.
    pub fn to_gl(self) -> (r: u32)
        ensures
            r == blend_factor_gl(self),
    {
        match self {
            BlendFactor::Zero => consts::ZERO,
            BlendFactor::One => consts::ONE,
            BlendFactor::SrcColor => consts::SRC_COLOR,
            BlendFactor::OneMinusSrcColor => consts::ONE_MINUS_SRC_COLOR,
            BlendFactor::DstColor => consts::DST_COLOR,
            BlendFactor::OneMinusDstColor => consts::ONE_MINUS_DST_COLOR,
            BlendFactor::SrcAlpha => consts::SRC_ALPHA,
            BlendFactor::OneMinusSrcAlpha => consts::ONE_MINUS_SRC_ALPHA,
            BlendFactor::DstAlpha => consts::DST_ALPHA,
            BlendFactor::OneMinusDstAlpha => consts::ONE_MINUS_DST_ALPHA,
            BlendFactor::SrcAlphaSaturate => consts::SRC_ALPHA_SATURATE,
            BlendFactor::ConstantColor => consts::CONSTANT_COLOR,
            BlendFactor::OneMinusConstantColor => consts::ONE_MINUS_CONSTANT_COLOR,
            BlendFactor::ConstantAlpha => consts::CONSTANT_ALPHA,
            BlendFactor::OneMinusConstantAlpha => consts::ONE_MINUS_CONSTANT_ALPHA,
        }
    }
}

/// An equation built by [`BlendEquation::same`] uses one operation for both
/// channels, and an equation that uses one operation for both channels is
/// the one [`BlendEquation::same`] builds from it.
pub proof fn lemma_equation_same_iff_is_same(eq: BlendEquation, op: BlendOp)
    ensures
        BlendEquation::same_spec(op).color == BlendEquation::same_spec(op).alpha,
        (eq.color == eq.alpha) <==> eq == BlendEquation::same_spec(eq.color),
{
}

/// A function built by [`BlendFunc::same`] uses the same factors for both
/// channels, and a function whose channels agree is the one
/// [`BlendFunc::same`] builds from its color factors.
pub proof fn lemma_func_same_iff_is_same(func: BlendFunc, src: BlendFactor, dst: BlendFactor)
    ensures
        ({
            let s = BlendFunc::same_spec(src, dst);
            s.src_color == s.src_alpha && s.dst_color == s.dst_alpha
        }),
        (func.src_color == func.src_alpha && func.dst_color == func.dst_alpha) <==> func
            == BlendFunc::same_spec(func.src_color, func.dst_color),
{
}

/// Distinct blend operations have distinct GL enumerants.
pub proof fn lemma_blend_op_gl_injective(a: BlendOp, b: BlendOp)
    ensures
        blend_op_gl(a) == blend_op_gl(b) ==> a == b,
{
}

/// Distinct blend factors have distinct GL enumerants.
pub proof fn lemma_blend_factor_gl_injective(a: BlendFactor, b: BlendFactor)
    ensures
        blend_factor_gl(a) == blend_factor_gl(b) ==> a == b,
{
}

/// The GL enumerant of each value, against the GL's constants: each constant names exactly one value.
pub proof fn lemma_blend_op_gl_values(x: BlendOp)
    ensures
        (blend_op_gl(x) == consts::FUNC_ADD) == (x == BlendOp::Add),
        (blend_op_gl(x) == consts::FUNC_SUBTRACT) == (x == BlendOp::Subtract),
        (blend_op_gl(x) == consts::FUNC_REVERSE_SUBTRACT) == (x == BlendOp::ReverseSubtract),
        (blend_op_gl(x) == consts::MAX) == (x == BlendOp::Max),
        (blend_op_gl(x) == consts::MIN) == (x == BlendOp::Min),
{
}

/// The GL enumerant of each value, against the GL's constants: each constant names exactly one value.
pub proof fn lemma_blend_factor_gl_values(x: BlendFactor)
    ensures
        (blend_factor_gl(x) == consts::ZERO) == (x == BlendFactor::Zero),
        (blend_factor_gl(x) == consts::ONE) == (x == BlendFactor::One),
        (blend_factor_gl(x) == consts::SRC_COLOR) == (x == BlendFactor::SrcColor),
        (blend_factor_gl(x) == consts::ONE_MINUS_SRC_COLOR) == (x == BlendFactor::OneMinusSrcColor),
        (blend_factor_gl(x) == consts::DST_COLOR) == (x == BlendFactor::DstColor),
        (blend_factor_gl(x) == consts::ONE_MINUS_DST_COLOR) == (x == BlendFactor::OneMinusDstColor),
        (blend_factor_gl(x) == consts::SRC_ALPHA) == (x == BlendFactor::SrcAlpha),
        (blend_factor_gl(x) == consts::ONE_MINUS_SRC_ALPHA) == (x == BlendFactor::OneMinusSrcAlpha),
        (blend_factor_gl(x) == consts::DST_ALPHA) == (x == BlendFactor::DstAlpha),
        (blend_factor_gl(x) == consts::ONE_MINUS_DST_ALPHA) == (x == BlendFactor::OneMinusDstAlpha),
        (blend_factor_gl(x) == consts::SRC_ALPHA_SATURATE) == (x == BlendFactor::SrcAlphaSaturate),
        (blend_factor_gl(x) == consts::CONSTANT_COLOR) == (x == BlendFactor::ConstantColor),
        (blend_factor_gl(x) == consts::ONE_MINUS_CONSTANT_COLOR) == (x == BlendFactor::OneMinusConstantColor),
        (blend_factor_gl(x) == consts::CONSTANT_ALPHA) == (x == BlendFactor::ConstantAlpha),
        (blend_factor_gl(x) == consts::ONE_MINUS_CONSTANT_ALPHA) == (x == BlendFactor::OneMinusConstantAlpha),
{
}

} // verus!
