//! The fixed-function state that a draw call runs with, and the state
//! changes that set it.

use vstd::prelude::*;

use super::blend::{blend_factor_gl, blend_op_gl, blends_equal, Blend};
use super::consts;
use super::depth_test::{depth_func_gl, depth_tests_equal, DepthTest, F32_ONE_BITS};
use super::float_bits::{bits_equal, f32_bits_equal};
use vstd::std_specs::cmp::PartialEqSpecImpl;

verus! {

/// The fixed-function state of a draw call.
///
/// `line_width` holds the IEEE 754 bit pattern (as given by `f32::to_bits`)
/// of the line width. Two draw parameters are `==` when their blends,
/// depth tests and line widths are equal as `f32` values compare (see
/// [`f32_bits_equal`]) and their color masks are the same.
#[derive(Clone, Copy, Debug)]
pub struct DrawParams {
    pub blend: Option<Blend>,
    pub depth_test: Option<DepthTest>,
    pub line_width: u32,
    pub color_mask: (bool, bool, bool, bool),
}

/// Whether two draw parameters are equal, their float fields compared as
/// `f32` values.
pub open spec fn draw_params_equal(a: DrawParams, b: DrawParams) -> bool {
    &&& match (a.blend, b.blend) {
        (None, None) => true,
        (Some(x), Some(y)) => blends_equal(x, y),
        _ => false,
    }
    &&& match (a.depth_test, b.depth_test) {
        (None, None) => true,
        (Some(x), Some(y)) => depth_tests_equal(x, y),
        _ => false,
    }
    &&& f32_bits_equal(a.line_width, b.line_width)
    &&& a.color_mask == b.color_mask
}

impl PartialEq for DrawParams {
    fn eq(&self, other: &Self) -> (r: bool) {
        let blend = match (&self.blend, &other.blend) {
            (None, None) => true,
            (Some(x), Some(y)) => x == y,
            _ => false,
        };
        let depth_test = match (&self.depth_test, &other.depth_test) {
            (None, None) => true,
            (Some(x), Some(y)) => x == y,
            _ => false,
        };
        let (m0, m1, m2, m3) = self.color_mask;
        let (n0, n1, n2, n3) = other.color_mask;
        blend && depth_test && bits_equal(self.line_width, other.line_width) && m0 == n0 && m1
            == n1 && m2 == n2 && m3 == n3
    }
}

impl PartialEqSpecImpl for DrawParams {
    open spec fn obeys_eq_spec() -> bool {
        true
    }

    open spec fn eq_spec(&self, other: &DrawParams) -> bool {
        draw_params_equal(*self, *other)
    }
}

impl Default for DrawParams {
    /// No blending, no depth test, lines one pixel wide, all channels
    /// written.
    fn default() -> (p: Self)
        ensures
            p.blend is None,
            p.depth_test is None,
            p.line_width == F32_ONE_BITS,
            p.color_mask == (true, true, true, true),
    {
        Self { blend: None, depth_test: None, line_width: F32_ONE_BITS, color_mask: (true, true, true, true) }
    }
}

/// One change of GL state.
///
/// Its `==` compares the arguments as they are passed to the GL, float
/// arguments by their bit patterns.
#[derive(Debug, Clone, Copy, PartialEq)]
pub enum StateChange {
    Enable(u32),
    Disable(u32),
    BlendEquation(u32),
    BlendEquationSeparate(u32, u32),
    BlendFunc(u32, u32),
    /// The four arguments of `blendFuncSeparate`, in the order they are
    /// passed.
    BlendFuncSeparate(u32, u32, u32, u32),
    /// Bit patterns of the red, green, blue and alpha components.
    BlendColor([u32; 4]),
    DepthFunc(u32),
    /// Bit patterns of the near and far ends of the depth range.
    DepthRange(u32, u32),
    DepthMask(bool),
    /// Bit pattern of the line width.
    LineWidth(u32),
    ColorMask(bool, bool, bool, bool),
}

/// The changes that set the blending state: blending is disabled, or it is
/// enabled with its equation, its function and its constant color. The
/// equation and the function are set for both channels at once when both
/// channels agree, else separately.
pub open spec fn blend_changes(blend: Option<Blend>) -> Seq<StateChange> {
    match blend {
        None => seq![StateChange::Disable(consts::BLEND)],
        Some(b) => seq![
            StateChange::Enable(consts::BLEND),
            if b.equation.color == b.equation.alpha {
                StateChange::BlendEquation(blend_op_gl(b.equation.color))
            } else {
                StateChange::BlendEquationSeparate(
                    blend_op_gl(b.equation.color),
                    blend_op_gl(b.equation.alpha),
                )
            },
            if b.func.src_color == b.func.src_alpha && b.func.dst_color == b.func.dst_alpha {
                StateChange::BlendFunc(blend_factor_gl(b.func.src_color), blend_factor_gl(b.func.dst_color))
            } else {
                StateChange::BlendFuncSeparate(
                    blend_factor_gl(b.func.src_color),
                    blend_factor_gl(b.func.src_alpha),
                    blend_factor_gl(b.func.dst_color),
                    blend_factor_gl(b.func.dst_alpha),
                )
            },
            StateChange::BlendColor(b.constant_color),
        ],
    }
}

/// The changes that set the depth testing state: depth testing is disabled,
/// or it is enabled with its comparison, its range and its write mask.
pub open spec fn depth_test_changes(depth_test: Option<DepthTest>) -> Seq<StateChange> {
    match depth_test {
        None => seq![StateChange::Disable(consts::DEPTH_TEST)],
        Some(d) => seq![
            StateChange::Enable(consts::DEPTH_TEST),
            StateChange::DepthFunc(depth_func_gl(d.func)),
            StateChange::DepthRange(d.range_near, d.range_far),
            StateChange::DepthMask(d.write),
        ],
    }
}

/// The changes that set all of `params`: blending, depth testing, line
/// width, color mask.
pub open spec fn draw_params_changes(params: DrawParams) -> Seq<StateChange> {
    blend_changes(params.blend) + depth_test_changes(params.depth_test) + seq![
        StateChange::LineWidth(params.line_width),
        StateChange::ColorMask(
            params.color_mask.0,
            params.color_mask.1,
            params.color_mask.2,
            params.color_mask.3,
        ),
    ]
}

/// The blend factors (source color, destination color, source alpha,
/// destination alpha) that the GL holds after `change`, when it held `f`
/// before: `blendFunc(s, d)` sets both source factors to `s` and both
/// destination factors to `d`; `blendFuncSeparate(a, b, c, d)` sets them to
/// `a`, `b`, `c` and `d` in this order; other changes leave them.
pub open spec fn blend_factors_after_change(f: (u32, u32, u32, u32), change: StateChange) -> (
    u32,
    u32,
    u32,
    u32,
) {
    match change {
        StateChange::BlendFunc(src, dst) => (src, dst, src, dst),
        StateChange::BlendFuncSeparate(a, b, c, d) => (a, b, c, d),
        _ => f,
    }
}

/// The blend operations (color, alpha) that the GL holds after `change`,
/// when it held `e` before: `blendEquation(m)` sets both to `m`;
/// `blendEquationSeparate(c, a)` sets them to `c` and `a`.
pub open spec fn blend_ops_after_change(e: (u32, u32), change: StateChange) -> (u32, u32) {
    match change {
        StateChange::BlendEquation(m) => (m, m),
        StateChange::BlendEquationSeparate(c, a) => (c, a),
        _ => e,
    }
}

/// The blend factors that the GL holds after the changes, in order.
pub open spec fn blend_factors_after(f: (u32, u32, u32, u32), changes: Seq<StateChange>) -> (
    u32,
    u32,
    u32,
    u32,
)
    decreases changes.len(),
{
    if changes.len() == 0 {
        f
    } else {
        blend_factors_after_change(blend_factors_after(f, changes.drop_last()), changes.last())
    }
}

/// The blend operations that the GL holds after the changes, in order.
pub open spec fn blend_ops_after(e: (u32, u32), changes: Seq<StateChange>) -> (u32, u32)
    decreases changes.len(),
{
    if changes.len() == 0 {
        e
    } else {
        blend_ops_after_change(blend_ops_after(e, changes.drop_last()), changes.last())
    }
}

/// Whether a change leaves the blend function and equation alone.
pub open spec fn leaves_blend(change: StateChange) -> bool {
    !(change is BlendFunc || change is BlendFuncSeparate || change is BlendEquation
        || change is BlendEquationSeparate)
}

proof fn lemma_blend_untouched_suffix(
    f: (u32, u32, u32, u32),
    e: (u32, u32),
    prefix: Seq<StateChange>,
    rest: Seq<StateChange>,
)
    requires
        forall|i: int| 0 <= i < rest.len() ==> leaves_blend(#[trigger] rest[i]),
    ensures
        blend_factors_after(f, prefix + rest) == blend_factors_after(f, prefix),
        blend_ops_after(e, prefix + rest) == blend_ops_after(e, prefix),
    decreases rest.len(),
{
    if rest.len() > 0 {
        let shorter = rest.drop_last();
        assert((prefix + rest).drop_last() =~= prefix + shorter);
        assert((prefix + rest).last() == rest[rest.len() - 1]);
        assert(leaves_blend(rest[rest.len() - 1]));
        lemma_blend_untouched_suffix(f, e, prefix, shorter);
    } else {
        assert(prefix + rest =~= prefix);
    }
}

/// What setting draw parameters with blending leaves the GL blending with,
/// whatever it blended with before: the blend operations of the color and
/// the alpha channel; when both channels use the same factors, the source
/// and destination factors for both; when they differ, the four factors
/// in the order `blendFuncSeparate` receives them (source color, source
/// alpha, destination color, destination alpha).
pub proof fn lemma_draw_params_set_blending(
    params: DrawParams,
    f: (u32, u32, u32, u32),
    e: (u32, u32),
)
    requires
        params.blend is Some,
    ensures
        ({
            let b = params.blend->0;
            let changes = draw_params_changes(params);
            &&& blend_ops_after(e, changes) == (
                blend_op_gl(b.equation.color),
                blend_op_gl(b.equation.alpha),
            )
            &&& (b.func.src_color == b.func.src_alpha && b.func.dst_color == b.func.dst_alpha)
                ==> blend_factors_after(f, changes) == (
                blend_factor_gl(b.func.src_color),
                blend_factor_gl(b.func.dst_color),
                blend_factor_gl(b.func.src_alpha),
                blend_factor_gl(b.func.dst_alpha),
            )
            &&& !(b.func.src_color == b.func.src_alpha && b.func.dst_color == b.func.dst_alpha)
                ==> blend_factors_after(f, changes) == (
                blend_factor_gl(b.func.src_color),
                blend_factor_gl(b.func.src_alpha),
                blend_factor_gl(b.func.dst_color),
                blend_factor_gl(b.func.dst_alpha),
            )
        }),
{
    let blend = blend_changes(params.blend);
    let rest = depth_test_changes(params.depth_test) + seq![
        StateChange::LineWidth(params.line_width),
        StateChange::ColorMask(
            params.color_mask.0,
            params.color_mask.1,
            params.color_mask.2,
            params.color_mask.3,
        ),
    ];
    assert(draw_params_changes(params) =~= blend + rest);
    assert forall|i: int| 0 <= i < rest.len() implies leaves_blend(#[trigger] rest[i]) by {
        let d = depth_test_changes(params.depth_test);
        if i < d.len() {
            assert(rest[i] == d[i]);
        }
    }
    lemma_blend_untouched_suffix(f, e, blend, rest);
    reveal_with_fuel(blend_factors_after, 5);
    reveal_with_fuel(blend_ops_after, 5);
    assert(blend.drop_last().drop_last().drop_last().drop_last() =~= Seq::<StateChange>::empty());
}

/// The fixed-function state of the GL that draw parameters set: whether
/// blending and depth testing are enabled, the blend operations (color,
/// alpha), the blend factors (source color, destination color, source
/// alpha, destination alpha), the blend constant color, the depth
/// comparison, the depth range (near, far), the depth write mask, the line
/// width and the color write mask. Float values are held as bit patterns.
pub struct FixedFunctionState {
    pub blend: bool,
    pub depth_test: bool,
    pub blend_ops: (u32, u32),
    pub blend_factors: (u32, u32, u32, u32),
    pub blend_color: [u32; 4],
    pub depth_func: u32,
    pub depth_range: (u32, u32),
    pub depth_mask: bool,
    pub line_width: u32,
    pub color_mask: (bool, bool, bool, bool),
}

/// The state that the GL holds after `change`, when it held `s` before:
/// `enable` and `disable` switch a capability on or off, and each other
/// change sets the value it names.
pub open spec fn fixed_state_after_change(s: FixedFunctionState, change: StateChange) -> FixedFunctionState {
    let t = FixedFunctionState {
        blend_ops: blend_ops_after_change(s.blend_ops, change),
        blend_factors: blend_factors_after_change(s.blend_factors, change),
        ..s
    };
    match change {
        StateChange::Enable(cap) => FixedFunctionState {
            blend: if cap == consts::BLEND { true } else { s.blend },
            depth_test: if cap == consts::DEPTH_TEST { true } else { s.depth_test },
            ..t
        },
        StateChange::Disable(cap) => FixedFunctionState {
            blend: if cap == consts::BLEND { false } else { s.blend },
            depth_test: if cap == consts::DEPTH_TEST { false } else { s.depth_test },
            ..t
        },
        StateChange::BlendColor(c) => FixedFunctionState { blend_color: c, ..t },
        StateChange::DepthFunc(f) => FixedFunctionState { depth_func: f, ..t },
        StateChange::DepthRange(near, far) => FixedFunctionState { depth_range: (near, far), ..t },
        StateChange::DepthMask(w) => FixedFunctionState { depth_mask: w, ..t },
        StateChange::LineWidth(w) => FixedFunctionState { line_width: w, ..t },
        StateChange::ColorMask(r, g, b, a) => FixedFunctionState { color_mask: (r, g, b, a), ..t },
        _ => t,
    }
}

/// The state that the GL holds after the changes, in order.
pub open spec fn fixed_state_after(s: FixedFunctionState, changes: Seq<StateChange>) -> FixedFunctionState
    decreases changes.len(),
{
    if changes.len() == 0 {
        s
    } else {
        fixed_state_after_change(fixed_state_after(s, changes.drop_last()), changes.last())
    }
}

proof fn lemma_fixed_state_after_concat(
    s: FixedFunctionState,
    a: Seq<StateChange>,
    b: Seq<StateChange>,
)
    ensures
        fixed_state_after(s, a + b) == fixed_state_after(fixed_state_after(s, a), b),
    decreases b.len(),
{
    if b.len() == 0 {
        assert(a + b =~= a);
    } else {
        assert((a + b).drop_last() =~= a + b.drop_last());
        assert((a + b).last() == b.last());
        lemma_fixed_state_after_concat(s, a, b.drop_last());
    }
}

proof fn lemma_blend_changes_effect(s: FixedFunctionState, blend: Option<Blend>)
    ensures
        ({
            let t = fixed_state_after(s, blend_changes(blend));
            &&& t.blend == blend is Some
            &&& t.depth_test == s.depth_test
            &&& t.depth_func == s.depth_func
            &&& t.depth_range == s.depth_range
            &&& t.depth_mask == s.depth_mask
            &&& t.line_width == s.line_width
            &&& t.color_mask == s.color_mask
            &&& blend is Some ==> {
                let b = blend->0;
                &&& t.blend_color == b.constant_color
                &&& t.blend_ops == (blend_op_gl(b.equation.color), blend_op_gl(b.equation.alpha))
                &&& (b.func.src_color == b.func.src_alpha && b.func.dst_color == b.func.dst_alpha)
                    ==> t.blend_factors == (
                    blend_factor_gl(b.func.src_color),
                    blend_factor_gl(b.func.dst_color),
                    blend_factor_gl(b.func.src_alpha),
                    blend_factor_gl(b.func.dst_alpha),
                )
                &&& !(b.func.src_color == b.func.src_alpha && b.func.dst_color == b.func.dst_alpha)
                    ==> t.blend_factors == (
                    blend_factor_gl(b.func.src_color),
                    blend_factor_gl(b.func.src_alpha),
                    blend_factor_gl(b.func.dst_color),
                    blend_factor_gl(b.func.dst_alpha),
                )
            }
        }),
{
    let c = blend_changes(blend);
    reveal_with_fuel(fixed_state_after, 5);
    if blend is Some {
        assert(c.drop_last().drop_last().drop_last().drop_last() =~= Seq::<StateChange>::empty());
    } else {
        assert(c.drop_last() =~= Seq::<StateChange>::empty());
    }
}

proof fn lemma_depth_test_changes_effect(s: FixedFunctionState, depth_test: Option<DepthTest>)
    ensures
        ({
            let t = fixed_state_after(s, depth_test_changes(depth_test));
            &&& t.depth_test == depth_test is Some
            &&& t.blend == s.blend
            &&& t.blend_color == s.blend_color
            &&& t.blend_ops == s.blend_ops
            &&& t.blend_factors == s.blend_factors
            &&& t.line_width == s.line_width
            &&& t.color_mask == s.color_mask
            &&& depth_test is Some ==> {
                let d = depth_test->0;
                &&& t.depth_func == depth_func_gl(d.func)
                &&& t.depth_range == (d.range_near, d.range_far)
                &&& t.depth_mask == d.write
            }
        }),
{
    let c = depth_test_changes(depth_test);
    reveal_with_fuel(fixed_state_after, 5);
    if depth_test is Some {
        assert(c.drop_last().drop_last().drop_last().drop_last() =~= Seq::<StateChange>::empty());
    } else {
        assert(c.drop_last() =~= Seq::<StateChange>::empty());
    }
}

/// Whatever state the GL held before, making the changes of
/// `draw_params_state(params)` leaves it drawing with `params`: blending
/// and depth testing are enabled exactly when `params` has them; with
/// blending, the blend operations are those of the color and the alpha
/// channel, the constant color is that of the blend, and the factors are
/// those of the blend (when the channels differ, in the order
/// `blendFuncSeparate` receives them: source color, source alpha,
/// destination color, destination alpha); with depth testing, the
/// comparison, the range (near, far) and the write mask are those of the
/// depth test; the line width and the color mask are those of `params`.
pub proof fn lemma_draw_params_state_sets_params(params: DrawParams, s: FixedFunctionState)
    ensures
        ({
            let t = fixed_state_after(s, draw_params_changes(params));
            &&& t.blend == params.blend is Some
            &&& t.depth_test == params.depth_test is Some
            &&& t.line_width == params.line_width
            &&& t.color_mask == params.color_mask
            &&& params.blend is Some ==> {
                let b = params.blend->0;
                &&& t.blend_color == b.constant_color
                &&& t.blend_ops == (blend_op_gl(b.equation.color), blend_op_gl(b.equation.alpha))
                &&& (b.func.src_color == b.func.src_alpha && b.func.dst_color == b.func.dst_alpha)
                    ==> t.blend_factors == (
                    blend_factor_gl(b.func.src_color),
                    blend_factor_gl(b.func.dst_color),
                    blend_factor_gl(b.func.src_alpha),
                    blend_factor_gl(b.func.dst_alpha),
                )
                &&& !(b.func.src_color == b.func.src_alpha && b.func.dst_color == b.func.dst_alpha)
                    ==> t.blend_factors == (
                    blend_factor_gl(b.func.src_color),
                    blend_factor_gl(b.func.src_alpha),
                    blend_factor_gl(b.func.dst_color),
                    blend_factor_gl(b.func.dst_alpha),
                )
            }
            &&& params.depth_test is Some ==> {
                let d = params.depth_test->0;
                &&& t.depth_func == depth_func_gl(d.func)
                &&& t.depth_range == (d.range_near, d.range_far)
                &&& t.depth_mask == d.write
            }
        }),
{
    let bc = blend_changes(params.blend);
    let dc = depth_test_changes(params.depth_test);
    let tail = seq![
        StateChange::LineWidth(params.line_width),
        StateChange::ColorMask(
            params.color_mask.0,
            params.color_mask.1,
            params.color_mask.2,
            params.color_mask.3,
        ),
    ];
    assert(draw_params_changes(params) == bc + dc + tail);
    lemma_fixed_state_after_concat(s, bc + dc, tail);
    lemma_fixed_state_after_concat(s, bc, dc);
    lemma_blend_changes_effect(s, params.blend);
    let s1 = fixed_state_after(s, bc);
    lemma_depth_test_changes_effect(s1, params.depth_test);
    reveal_with_fuel(fixed_state_after, 3);
    assert(tail.drop_last().drop_last() =~= Seq::<StateChange>::empty());
}

/// The changes that set the blending state.
pub fn blend_state(blend: Option<Blend>) -> (r: Vec<StateChange>)
    ensures
        r@ == blend_changes(blend),
{
    match blend {
        None => {
            let r = vec![StateChange::Disable(consts::BLEND)];
            assert(r@ =~= blend_changes(blend));
            r
        },
        Some(b) => {
            let equation = if b.equation.is_same() {
                StateChange::BlendEquation(b.equation.color.to_gl())
            } else {
                StateChange::BlendEquationSeparate(b.equation.color.to_gl(), b.equation.alpha.to_gl())
            };
            let func = if b.func.is_same() {
                StateChange::BlendFunc(b.func.src_color.to_gl(), b.func.dst_color.to_gl())
            } else {
                StateChange::BlendFuncSeparate(
                    b.func.src_color.to_gl(),
                    b.func.src_alpha.to_gl(),
                    b.func.dst_color.to_gl(),
                    b.func.dst_alpha.to_gl(),
                )
            };
            let r = vec![
                StateChange::Enable(consts::BLEND),
                equation,
                func,
                StateChange::BlendColor(b.constant_color),
            ];
            assert(r@ =~= blend_changes(blend));
            r
        },
    }
}

/// The changes that set the depth testing state.
pub fn depth_test_state(depth_test: Option<DepthTest>) -> (r: Vec<StateChange>)
    ensures
        r@ == depth_test_changes(depth_test),
{
    match depth_test {
        None => {
            let r = vec![StateChange::Disable(consts::DEPTH_TEST)];
            assert(r@ =~= depth_test_changes(depth_test));
            r
        },
        Some(d) => {
            let r = vec![
                StateChange::Enable(consts::DEPTH_TEST),
                StateChange::DepthFunc(d.func.to_gl()),
                StateChange::DepthRange(d.range_near, d.range_far),
                StateChange::DepthMask(d.write),
            ];
            assert(r@ =~= depth_test_changes(depth_test));
            r
        },
    }
}

/// The changes that set all of `params`, in the order they are made.
pub fn draw_params_state(params: &DrawParams) -> (r: Vec<StateChange>)
    ensures
        r@ == draw_params_changes(*params),
{
    let mut r = blend_state(params.blend);
    let mut depth = depth_test_state(params.depth_test);
    r.append(&mut depth);
    r.push(StateChange::LineWidth(params.line_width));
    r.push(
        StateChange::ColorMask(
            params.color_mask.0,
            params.color_mask.1,
            params.color_mask.2,
            params.color_mask.3,
        ),
    );
    assert(r@ =~= draw_params_changes(*params));
    r
}

} // verus!
