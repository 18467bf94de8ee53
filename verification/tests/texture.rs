use malen::gl::texture::{check_texture_size, is_rgba_len, is_sub_image_in_bounds};
use malen::gl::{
    NewTextureError, TextureMagFilter, TextureMinFilter, TextureParams, TextureValueType,
    TextureWrap,
};

#[test]
fn texture_params_defaults() {
    let p = TextureParams::default();
    assert_eq!(p.value_type, TextureValueType::RgbaU8);
    assert_eq!(p.min_filter, TextureMinFilter::Linear);
    assert_eq!(p.mag_filter, TextureMagFilter::Linear);
    assert_eq!(p.wrap_vertical, TextureWrap::Repeat);
    assert_eq!(p.wrap_horizontal, TextureWrap::Repeat);
    let m = TextureParams::mipmapped();
    assert_eq!(m.min_filter, TextureMinFilter::LinearMipmapLinear);
    assert!(m.min_filter.uses_mipmap());
    assert!(!p.min_filter.uses_mipmap());
}

#[test]
fn texture_filters_and_mipmaps() {
    assert!(!TextureMinFilter::Nearest.uses_mipmap());
    assert!(TextureMinFilter::NearestMipmapNearest.uses_mipmap());
    assert!(TextureMinFilter::LinearMipmapNearest.uses_mipmap());
    assert!(TextureMinFilter::NearestMipmapLinear.uses_mipmap());
    assert_eq!(TextureMinFilter::NearestMipmapLinear.to_gl(), glow::NEAREST_MIPMAP_LINEAR);
    assert_eq!(TextureMagFilter::Nearest.to_gl(), glow::NEAREST);
    assert_eq!(TextureWrap::MirroredRepeat.to_gl(), glow::MIRRORED_REPEAT);
    assert_eq!(TextureWrap::ClampToEdge.to_gl(), glow::CLAMP_TO_EDGE);
}

#[test]
fn texture_value_types() {
    assert!(TextureValueType::Depth.is_depth());
    assert!(!TextureValueType::RgF16.is_depth());
    assert_eq!(TextureValueType::RgbaU8.internal_format_gl(), glow::RGBA8 as i32);
    assert_eq!(TextureValueType::RgF16.internal_format_gl(), glow::RG16F as i32);
    assert_eq!(TextureValueType::Depth.internal_format_gl(), glow::DEPTH_COMPONENT24 as i32);
    assert_eq!(TextureValueType::RgF16.format_gl(), glow::RG);
    assert_eq!(TextureValueType::RgbaF32.format_gl(), glow::RGBA);
    assert_eq!(TextureValueType::RgbaF16.type_gl(), glow::HALF_FLOAT);
    assert_eq!(TextureValueType::Depth.type_gl(), glow::UNSIGNED_INT);
}

#[test]
fn texture_gl_settings_order() {
    let p = TextureParams {
        value_type: TextureValueType::RgbaU8,
        min_filter: TextureMinFilter::Nearest,
        mag_filter: TextureMagFilter::Linear,
        wrap_vertical: TextureWrap::ClampToEdge,
        wrap_horizontal: TextureWrap::MirroredRepeat,
    };
    assert_eq!(
        p.gl_settings(),
        [
            (glow::TEXTURE_MIN_FILTER, glow::NEAREST as i32),
            (glow::TEXTURE_MAG_FILTER, glow::LINEAR as i32),
            (glow::TEXTURE_WRAP_S, glow::MIRRORED_REPEAT as i32),
            (glow::TEXTURE_WRAP_T, glow::CLAMP_TO_EDGE as i32),
        ]
    );
}

#[test]
fn texture_size_check() {
    assert!(check_texture_size(16, 16, 16).is_ok());
    match check_texture_size(17, 20, 16) {
        Err(NewTextureError::TooLarge(w, m)) => assert_eq!((w, m), (17, 16)),
        other => panic!("unexpected {:?}", other),
    }
    match check_texture_size(8, 20, 16) {
        Err(NewTextureError::TooLarge(h, m)) => assert_eq!((h, m), (20, 16)),
        other => panic!("unexpected {:?}", other),
    }
}

#[test]
fn texture_sub_image_bounds_and_rgba_len() {
    assert!(is_sub_image_in_bounds(2, 3, 4, 5, 6, 8));
    assert!(!is_sub_image_in_bounds(3, 3, 4, 5, 6, 8));
    assert!(!is_sub_image_in_bounds(u32::MAX, 0, 1, 0, u32::MAX, 0));
    assert!(is_rgba_len(2 * 3 * 4, 2, 3));
    assert!(!is_rgba_len(2 * 3 * 4 + 1, 2, 3));
}
