use malen::gl::consts;

#[test]
fn gl_enumerants_match_glow() {
    assert_eq!(consts::FUNC_ADD, glow::FUNC_ADD);
    assert_eq!(consts::FUNC_SUBTRACT, glow::FUNC_SUBTRACT);
    assert_eq!(consts::FUNC_REVERSE_SUBTRACT, glow::FUNC_REVERSE_SUBTRACT);
    assert_eq!(consts::MAX, glow::MAX);
    assert_eq!(consts::MIN, glow::MIN);
    assert_eq!(consts::ZERO, glow::ZERO);
    assert_eq!(consts::ONE, glow::ONE);
    assert_eq!(consts::SRC_COLOR, glow::SRC_COLOR);
    assert_eq!(consts::ONE_MINUS_SRC_COLOR, glow::ONE_MINUS_SRC_COLOR);
    assert_eq!(consts::DST_COLOR, glow::DST_COLOR);
    assert_eq!(consts::ONE_MINUS_DST_COLOR, glow::ONE_MINUS_DST_COLOR);
    assert_eq!(consts::SRC_ALPHA, glow::SRC_ALPHA);
    assert_eq!(consts::ONE_MINUS_SRC_ALPHA, glow::ONE_MINUS_SRC_ALPHA);
    assert_eq!(consts::DST_ALPHA, glow::DST_ALPHA);
    assert_eq!(consts::ONE_MINUS_DST_ALPHA, glow::ONE_MINUS_DST_ALPHA);
    assert_eq!(consts::SRC_ALPHA_SATURATE, glow::SRC_ALPHA_SATURATE);
    assert_eq!(consts::CONSTANT_COLOR, glow::CONSTANT_COLOR);
    assert_eq!(consts::ONE_MINUS_CONSTANT_COLOR, glow::ONE_MINUS_CONSTANT_COLOR);
    assert_eq!(consts::CONSTANT_ALPHA, glow::CONSTANT_ALPHA);
    assert_eq!(consts::ONE_MINUS_CONSTANT_ALPHA, glow::ONE_MINUS_CONSTANT_ALPHA);
    assert_eq!(consts::NEVER, glow::NEVER);
    assert_eq!(consts::LESS, glow::LESS);
    assert_eq!(consts::EQUAL, glow::EQUAL);
    assert_eq!(consts::LEQUAL, glow::LEQUAL);
    assert_eq!(consts::GREATER, glow::GREATER);
    assert_eq!(consts::NOTEQUAL, glow::NOTEQUAL);
    assert_eq!(consts::GEQUAL, glow::GEQUAL);
    assert_eq!(consts::ALWAYS, glow::ALWAYS);
    assert_eq!(consts::LINES, glow::LINES);
    assert_eq!(consts::TRIANGLES, glow::TRIANGLES);
    assert_eq!(consts::UNSIGNED_INT, glow::UNSIGNED_INT);
    assert_eq!(consts::UNSIGNED_SHORT, glow::UNSIGNED_SHORT);
    assert_eq!(consts::RGBA8, glow::RGBA8);
    assert_eq!(consts::RGBA16F, glow::RGBA16F);
    assert_eq!(consts::RGBA32F, glow::RGBA32F);
    assert_eq!(consts::RG16F, glow::RG16F);
    assert_eq!(consts::DEPTH_COMPONENT24, glow::DEPTH_COMPONENT24);
    assert_eq!(consts::RGBA, glow::RGBA);
    assert_eq!(consts::RG, glow::RG);
    assert_eq!(consts::DEPTH_COMPONENT, glow::DEPTH_COMPONENT);
    assert_eq!(consts::UNSIGNED_BYTE, glow::UNSIGNED_BYTE);
    assert_eq!(consts::HALF_FLOAT, glow::HALF_FLOAT);
    assert_eq!(consts::FLOAT, glow::FLOAT);
    assert_eq!(consts::INT, glow::INT);
    assert_eq!(consts::LINEAR, glow::LINEAR);
    assert_eq!(consts::NEAREST, glow::NEAREST);
    assert_eq!(consts::NEAREST_MIPMAP_NEAREST, glow::NEAREST_MIPMAP_NEAREST);
    assert_eq!(consts::LINEAR_MIPMAP_NEAREST, glow::LINEAR_MIPMAP_NEAREST);
    assert_eq!(consts::NEAREST_MIPMAP_LINEAR, glow::NEAREST_MIPMAP_LINEAR);
    assert_eq!(consts::LINEAR_MIPMAP_LINEAR, glow::LINEAR_MIPMAP_LINEAR);
    assert_eq!(consts::REPEAT, glow::REPEAT);
    assert_eq!(consts::CLAMP_TO_EDGE, glow::CLAMP_TO_EDGE);
    assert_eq!(consts::MIRRORED_REPEAT, glow::MIRRORED_REPEAT);
    assert_eq!(consts::COLOR_ATTACHMENT0, glow::COLOR_ATTACHMENT0);
    assert_eq!(consts::DEPTH_ATTACHMENT, glow::DEPTH_ATTACHMENT);
    assert_eq!(consts::VERTEX_SHADER, glow::VERTEX_SHADER);
    assert_eq!(consts::FRAGMENT_SHADER, glow::FRAGMENT_SHADER);
    assert_eq!(consts::BLEND, glow::BLEND);
    assert_eq!(consts::DEPTH_TEST, glow::DEPTH_TEST);
    assert_eq!(consts::TEXTURE_MIN_FILTER, glow::TEXTURE_MIN_FILTER);
    assert_eq!(consts::TEXTURE_MAG_FILTER, glow::TEXTURE_MAG_FILTER);
    assert_eq!(consts::TEXTURE_WRAP_S, glow::TEXTURE_WRAP_S);
    assert_eq!(consts::TEXTURE_WRAP_T, glow::TEXTURE_WRAP_T);
}
