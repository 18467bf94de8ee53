use malen::gl::float_bits::bits_equal;
use malen::gl::blend::{blend_op_gl, Blend, BlendEquation, BlendFactor, BlendFunc, BlendOp};
use malen::gl::depth_test::{DepthFunc, DepthTest, F32_ONE_BITS};
use malen::gl::draw_params::{draw_params_state, DrawParams, StateChange};

#[test]
fn blend_equation_same_is_same() {
    let eq = BlendEquation::same(BlendOp::Min);
    assert_eq!(eq.color, BlendOp::Min);
    assert_eq!(eq.alpha, BlendOp::Min);
    assert!(eq.is_same());
    let eq = BlendEquation { color: BlendOp::Add, alpha: BlendOp::Max };
    assert!(!eq.is_same());
}

#[test]
fn blend_func_same_is_same() {
    let func = BlendFunc::same(BlendFactor::One, BlendFactor::Zero);
    assert_eq!(func.src_color, BlendFactor::One);
    assert_eq!(func.src_alpha, BlendFactor::One);
    assert_eq!(func.dst_color, BlendFactor::Zero);
    assert_eq!(func.dst_alpha, BlendFactor::Zero);
    assert!(func.is_same());
    let func = BlendFunc { dst_alpha: BlendFactor::One, ..func };
    assert!(!func.is_same());
}

#[test]
fn blend_defaults() {
    let blend = Blend::default();
    assert_eq!(blend.equation, BlendEquation::same(BlendOp::Add));
    assert_eq!(blend.func, BlendFunc::same(BlendFactor::SrcAlpha, BlendFactor::OneMinusSrcAlpha));
    assert_eq!(blend.constant_color, [0.0f32.to_bits(); 4]);
}

#[test]
fn blend_gl_values() {
    assert_eq!(BlendOp::Add.to_gl(), glow::FUNC_ADD);
    assert_eq!(BlendOp::Subtract.to_gl(), glow::FUNC_SUBTRACT);
    assert_eq!(BlendOp::ReverseSubtract.to_gl(), glow::FUNC_REVERSE_SUBTRACT);
    assert_eq!(BlendOp::Min.to_gl(), glow::MIN);
    assert_eq!(BlendOp::Max.to_gl(), glow::MAX);
    assert_eq!(BlendFactor::Zero.to_gl(), glow::ZERO);
    assert_eq!(BlendFactor::OneMinusConstantAlpha.to_gl(), glow::ONE_MINUS_CONSTANT_ALPHA);
    assert_eq!(BlendFactor::SrcAlphaSaturate.to_gl(), glow::SRC_ALPHA_SATURATE);
    let _ = blend_op_gl;
}

#[test]
fn depth_test_defaults() {
    let d = DepthTest::default();
    assert_eq!(d.func, DepthFunc::Less);
    assert_eq!(d.range_near, 0.0f32.to_bits());
    assert_eq!(d.range_far, 1.0f32.to_bits());
    assert!(d.write);
    assert_eq!(F32_ONE_BITS, 1.0f32.to_bits());
    let r = DepthTest::read_only();
    assert!(!r.write);
    assert_eq!(r.func, DepthFunc::Less);
    assert_eq!(DepthFunc::GreaterOrEqual.to_gl(), glow::GEQUAL);
    assert_eq!(DepthFunc::LessOrEqual.to_gl(), glow::LEQUAL);
}

#[test]
fn draw_params_default_state() {
    let changes = draw_params_state(&DrawParams::default());
    assert_eq!(
        changes,
        vec![
            StateChange::Disable(glow::BLEND),
            StateChange::Disable(glow::DEPTH_TEST),
            StateChange::LineWidth(1.0f32.to_bits()),
            StateChange::ColorMask(true, true, true, true),
        ]
    );
}

#[test]
fn draw_params_same_blend_uses_combined_calls() {
    let params = DrawParams {
        blend: Some(Blend {
            equation: BlendEquation::same(BlendOp::Add),
            func: BlendFunc::same(BlendFactor::One, BlendFactor::One),
            ..Blend::default()
        }),
        depth_test: Some(DepthTest::default()),
        line_width: 3.0f32.to_bits(),
        color_mask: (true, true, true, false),
    };
    let changes = draw_params_state(&params);
    assert_eq!(
        changes,
        vec![
            StateChange::Enable(glow::BLEND),
            StateChange::BlendEquation(glow::FUNC_ADD),
            StateChange::BlendFunc(glow::ONE, glow::ONE),
            StateChange::BlendColor([0; 4]),
            StateChange::Enable(glow::DEPTH_TEST),
            StateChange::DepthFunc(glow::LESS),
            StateChange::DepthRange(0.0f32.to_bits(), 1.0f32.to_bits()),
            StateChange::DepthMask(true),
            StateChange::LineWidth(3.0f32.to_bits()),
            StateChange::ColorMask(true, true, true, false),
        ]
    );
}

#[test]
fn draw_params_separate_blend_uses_separate_calls() {
    let params = DrawParams {
        blend: Some(Blend {
            equation: BlendEquation { color: BlendOp::Add, alpha: BlendOp::Max },
            func: BlendFunc {
                src_color: BlendFactor::SrcAlpha,
                src_alpha: BlendFactor::One,
                dst_color: BlendFactor::OneMinusSrcAlpha,
                dst_alpha: BlendFactor::Zero,
            },
            constant_color: [1, 2, 3, 4],
        }),
        ..DrawParams::default()
    };
    let changes = draw_params_state(&params);
    assert_eq!(
        &changes[..4],
        &[
            StateChange::Enable(glow::BLEND),
            StateChange::BlendEquationSeparate(glow::FUNC_ADD, glow::MAX),
            StateChange::BlendFuncSeparate(
                glow::SRC_ALPHA,
                glow::ONE,
                glow::ONE_MINUS_SRC_ALPHA,
                glow::ZERO
            ),
            StateChange::BlendColor([1, 2, 3, 4]),
        ]
    );
}

#[test]
fn float_fields_compare_as_floats() {
    assert!(bits_equal(0.0f32.to_bits(), (-0.0f32).to_bits()));
    assert!(!bits_equal(f32::NAN.to_bits(), f32::NAN.to_bits()));
    assert!(bits_equal(1.5f32.to_bits(), 1.5f32.to_bits()));
    assert!(!bits_equal(1.5f32.to_bits(), 2.5f32.to_bits()));
    assert!(!bits_equal(f32::INFINITY.to_bits(), f32::NEG_INFINITY.to_bits()));

    let mut a = DrawParams::default();
    let mut b = DrawParams::default();
    assert!(a == b);
    a.depth_test = Some(DepthTest::default());
    b.depth_test = Some(DepthTest { range_near: (-0.0f32).to_bits(), ..DepthTest::default() });
    assert!(a == b);
    b.line_width = f32::NAN.to_bits();
    a.line_width = f32::NAN.to_bits();
    assert!(a != b);
    let blend = Blend::default();
    let other = Blend { constant_color: [(-0.0f32).to_bits(), 0, 0, 0], ..Blend::default() };
    assert!(blend == other);
    let different = Blend { constant_color: [1.0f32.to_bits(), 0, 0, 0], ..Blend::default() };
    assert!(blend != different);
}
