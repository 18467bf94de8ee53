//! Texture parameters, their GL enumerants, and the checks made before a
//! texture is created.

use vstd::prelude::*;

use super::consts;
use super::Error;

verus! {

/// Why a texture could not be created.
#[derive(Debug)]
pub enum NewTextureError {
    OpenGL(Error),
    /// The requested extent (first) exceeds the GL's maximum texture size
    /// (second).
    TooLarge(u32, u32),
}

#[derive(Debug, Clone, Copy, PartialEq, Eq, Structural)]
pub struct TextureParams {
    pub value_type: TextureValueType,
    pub min_filter: TextureMinFilter,
    pub mag_filter: TextureMagFilter,
    pub wrap_vertical: TextureWrap,
    pub wrap_horizontal: TextureWrap,
}

#[derive(Debug, Clone, Copy, PartialEq, Eq, Structural)]
pub enum TextureValueType {
    RgbaU8,
    RgbaF16,
    RgbaF32,
    RgF16,
    Depth,
}

#[derive(Debug, Clone, Copy, PartialEq, Eq, Structural)]
pub enum TextureMinFilter {
    Linear,
    Nearest,
    NearestMipmapNearest,
    LinearMipmapNearest,
    NearestMipmapLinear,
    LinearMipmapLinear,
}

#[derive(Debug, Clone, Copy, PartialEq, Eq, Structural)]
pub enum TextureMagFilter {
    Linear,
    Nearest,
}

#[derive(Debug, Clone, Copy, PartialEq, Eq, Structural)]
pub enum TextureWrap {
    Repeat,
    ClampToEdge,
    MirroredRepeat,
}

/// The sized internal format of a texture value type.
pub open spec fn internal_format_gl(t: TextureValueType) -> u32 {
    match t {
        TextureValueType::RgbaU8 => consts::RGBA8,
        TextureValueType::RgbaF16 => consts::RGBA16F,
        TextureValueType::RgbaF32 => consts::RGBA32F,
        TextureValueType::RgF16 => consts::RG16F,
        TextureValueType::Depth => consts::DEPTH_COMPONENT24,
    }
}

/// The pixel format of a texture value type.
pub open spec fn format_gl(t: TextureValueType) -> u32 {
    match t {
        TextureValueType::RgbaU8 => consts::RGBA,
        TextureValueType::RgbaF16 => consts::RGBA,
        TextureValueType::RgbaF32 => consts::RGBA,
        TextureValueType::RgF16 => consts::RG,
        TextureValueType::Depth => consts::DEPTH_COMPONENT,
    }
}

/// The component type of a texture value type.
pub open spec fn type_gl(t: TextureValueType) -> u32 {
    match t {
        TextureValueType::RgbaU8 => consts::UNSIGNED_BYTE,
        TextureValueType::RgbaF16 => consts::HALF_FLOAT,
        TextureValueType::RgbaF32 => consts::FLOAT,
        TextureValueType::RgF16 => consts::HALF_FLOAT,
        TextureValueType::Depth => consts::UNSIGNED_INT,
    }
}

/// The GL enumerant of a minification filter.
pub open spec fn min_filter_gl(f: TextureMinFilter) -> u32 {
    match f {
        TextureMinFilter::Linear => consts::LINEAR,
        TextureMinFilter::Nearest => consts::NEAREST,
        TextureMinFilter::NearestMipmapNearest => consts::NEAREST_MIPMAP_NEAREST,
        TextureMinFilter::LinearMipmapNearest => consts::LINEAR_MIPMAP_NEAREST,
        TextureMinFilter::NearestMipmapLinear => consts::NEAREST_MIPMAP_LINEAR,
        TextureMinFilter::LinearMipmapLinear => consts::LINEAR_MIPMAP_LINEAR,
    }
}

/// The GL enumerant of a magnification filter.
pub open spec fn mag_filter_gl(f: TextureMagFilter) -> u32 {
    match f {
        TextureMagFilter::Linear => consts::LINEAR,
        TextureMagFilter::Nearest => consts::NEAREST,
    }
}

/// The GL enumerant of a wrap mode.
pub open spec fn wrap_gl(w: TextureWrap) -> u32 {
    match w {
        TextureWrap::Repeat => consts::REPEAT,
        TextureWrap::ClampToEdge => consts::CLAMP_TO_EDGE,
        TextureWrap::MirroredRepeat => consts::MIRRORED_REPEAT,
    }
}

/// Whether a minification filter samples from mipmap levels.
pub open spec fn min_filter_uses_mipmap(f: TextureMinFilter) -> bool {
    f != TextureMinFilter::Linear && f != TextureMinFilter::Nearest
}

/// The `(parameter name, value)` pairs that are set on a texture with
/// parameters `p`, in the order they are set: minification filter,
/// magnification filter, horizontal wrap (S), vertical wrap (T).
pub open spec fn texture_settings(p: TextureParams) -> Seq<(u32, i32)> {
    seq![
        (consts::TEXTURE_MIN_FILTER, min_filter_gl(p.min_filter) as i32),
        (consts::TEXTURE_MAG_FILTER, mag_filter_gl(p.mag_filter) as i32),
        (consts::TEXTURE_WRAP_S, wrap_gl(p.wrap_horizontal) as i32),
        (consts::TEXTURE_WRAP_T, wrap_gl(p.wrap_vertical) as i32),
    ]
}

/// Each texture parameter is set exactly once, under its own name: the
/// minification and magnification filters to their enumerants, the wrap
/// along S (horizontal) to that of the horizontal wrap mode and the wrap
/// along T (vertical) to that of the vertical one; and a wrap is set to
/// `REPEAT` exactly when its mode repeats.
pub proof fn lemma_texture_settings_by_name(p: TextureParams)
    ensures
        ({
            let s = texture_settings(p);
            &&& s.len() == 4
            &&& forall|i: int, j: int| 0 <= i < j < 4 ==> s[i].0 != s[j].0
            &&& forall|i: int|
                0 <= i < 4 ==> {
                    let (name, value) = #[trigger] s[i];
                    &&& name == consts::TEXTURE_MIN_FILTER || name == consts::TEXTURE_MAG_FILTER
                        || name == consts::TEXTURE_WRAP_S || name == consts::TEXTURE_WRAP_T
                    &&& name == consts::TEXTURE_MIN_FILTER ==> value == min_filter_gl(p.min_filter) as i32
                    &&& name == consts::TEXTURE_MAG_FILTER ==> value == mag_filter_gl(p.mag_filter) as i32
                    &&& name == consts::TEXTURE_WRAP_S ==> value == wrap_gl(p.wrap_horizontal) as i32
                        && (value == consts::REPEAT as i32) == (p.wrap_horizontal == TextureWrap::Repeat)
                    &&& name == consts::TEXTURE_WRAP_T ==> value == wrap_gl(p.wrap_vertical) as i32
                        && (value == consts::REPEAT as i32) == (p.wrap_vertical == TextureWrap::Repeat)
                }
        }),
{
    let s = texture_settings(p);
    assert forall|i: int| 0 <= i < 4 implies {
        let (name, value) = #[trigger] s[i];
        &&& name == consts::TEXTURE_MIN_FILTER || name == consts::TEXTURE_MAG_FILTER
            || name == consts::TEXTURE_WRAP_S || name == consts::TEXTURE_WRAP_T
        &&& name == consts::TEXTURE_MIN_FILTER ==> value == min_filter_gl(p.min_filter) as i32
        &&& name == consts::TEXTURE_MAG_FILTER ==> value == mag_filter_gl(p.mag_filter) as i32
        &&& name == consts::TEXTURE_WRAP_S ==> value == wrap_gl(p.wrap_horizontal) as i32
            && (value == consts::REPEAT as i32) == (p.wrap_horizontal == TextureWrap::Repeat)
        &&& name == consts::TEXTURE_WRAP_T ==> value == wrap_gl(p.wrap_vertical) as i32
            && (value == consts::REPEAT as i32) == (p.wrap_vertical == TextureWrap::Repeat)
    } by {
        lemma_wrap_gl_values(p.wrap_horizontal);
        lemma_wrap_gl_values(p.wrap_vertical);
    }
}

impl Default for TextureParams {
    /// RGBA bytes, linear filtering, repeating in both directions.
    fn default() -> (p: Self)
        ensures
            p == (TextureParams {
                value_type: TextureValueType::RgbaU8,
                min_filter: TextureMinFilter::Linear,
                mag_filter: TextureMagFilter::Linear,
                wrap_vertical: TextureWrap::Repeat,
                wrap_horizontal: TextureWrap::Repeat,
            }),
    {
        Self {
            value_type: TextureValueType::RgbaU8,
            min_filter: TextureMinFilter::Linear,
            mag_filter: TextureMagFilter::Linear,
            wrap_vertical: TextureWrap::Repeat,
            wrap_horizontal: TextureWrap::Repeat,
        }
    }
}

impl TextureParams {
    /// RGBA bytes, trilinear filtering over mipmaps, repeating in both
    /// directions.
    pub fn mipmapped() -> (p: Self)
        ensures
            p == (TextureParams {
                value_type: TextureValueType::RgbaU8,
                min_filter: TextureMinFilter::LinearMipmapLinear,
                mag_filter: TextureMagFilter::Linear,
                wrap_vertical: TextureWrap::Repeat,
                wrap_horizontal: TextureWrap::Repeat,
            }),
    {
        Self {
            value_type: TextureValueType::RgbaU8,
            min_filter: TextureMinFilter::LinearMipmapLinear,
            mag_filter: TextureMagFilter::Linear,
            wrap_vertical: TextureWrap::Repeat,
            wrap_horizontal: TextureWrap::Repeat,
        }
    }

    /// The `(parameter name, value)` pairs that are set on a texture with
    /// these parameters, in the order they are set: minification filter,
    /// magnification filter, horizontal wrap (S), vertical wrap (T).
    pub fn gl_settings(&self) -> (settings: [(u32, i32); 4])
        ensures
            settings@ == texture_settings(*self),
    {
        let settings = [
            (consts::TEXTURE_MIN_FILTER, self.min_filter.to_gl() as i32),
            (consts::TEXTURE_MAG_FILTER, self.mag_filter.to_gl() as i32),
            (consts::TEXTURE_WRAP_S, self.wrap_horizontal.to_gl() as i32),
            (consts::TEXTURE_WRAP_T, self.wrap_vertical.to_gl() as i32),
        ];
        assert(settings@ =~= texture_settings(*self));
        settings
    }
}

impl TextureValueType {
    /// The sized internal format of this value type.
    pub fn internal_format_gl(self) -> (r: i32)
        ensures
            r == internal_format_gl(self),
    {
        match self {
            TextureValueType::RgbaU8 => consts::RGBA8 as i32,
            TextureValueType::RgbaF16 => consts::RGBA16F as i32,
            TextureValueType::RgbaF32 => consts::RGBA32F as i32,
            TextureValueType::RgF16 => consts::RG16F as i32,
            TextureValueType::Depth => consts::DEPTH_COMPONENT24 as i32,
        }
    }

    /// The pixel format of this value type.
    pub fn format_gl(self) -> (r: u32)
        ensures
            r == format_gl(self),
    {
        match self {
            TextureValueType::RgbaU8 => consts::RGBA,
            TextureValueType::RgbaF16 => consts::RGBA,
            TextureValueType::RgbaF32 => consts::RGBA,
            TextureValueType::RgF16 => consts::RG,
            TextureValueType::Depth => consts::DEPTH_COMPONENT,
        }
    }

    /// The component type of this value type.
    pub fn type_gl(self) -> (r: u32)
        ensures
            r == type_gl(self),
    {
        match self {
            TextureValueType::RgbaU8 => consts::UNSIGNED_BYTE,
            TextureValueType::RgbaF16 => consts::HALF_FLOAT,
            TextureValueType::RgbaF32 => consts::FLOAT,
            TextureValueType::RgF16 => consts::HALF_FLOAT,
            TextureValueType::Depth => consts::UNSIGNED_INT,
        }
    }

    /// Whether this is the depth value type.
    pub fn is_depth(self) -> (r: bool)
        ensures
            r == (self == TextureValueType::Depth),
    {
        self == TextureValueType::Depth
    }
}

impl TextureMinFilter {
    /// The GL enumerant of this filter.
    pub fn to_gl(self) -> (r: u32)
        ensures
            r == min_filter_gl(self),
    {
        match self {
            TextureMinFilter::Linear => consts::LINEAR,
            TextureMinFilter::Nearest => consts::NEAREST,
            TextureMinFilter::NearestMipmapNearest => consts::NEAREST_MIPMAP_NEAREST,
            TextureMinFilter::LinearMipmapNearest => consts::LINEAR_MIPMAP_NEAREST,
            TextureMinFilter::NearestMipmapLinear => consts::NEAREST_MIPMAP_LINEAR,
            TextureMinFilter::LinearMipmapLinear => consts::LINEAR_MIPMAP_LINEAR,
        }
    }

    /// Whether this filter samples from mipmap levels.
    pub fn uses_mipmap(self) -> (r: bool)
        ensures
            r == min_filter_uses_mipmap(self),
    {
        self != TextureMinFilter::Linear && self != TextureMinFilter::Nearest
    }
}

impl TextureMagFilter {
    /// The GL enumerant of this filter.
    pub fn to_gl(self) -> (r: u32)
        ensures
            r == mag_filter_gl(self),
    {
        match self {
            TextureMagFilter::Linear => consts::LINEAR,
            TextureMagFilter::Nearest => consts::NEAREST,
        }
    }
}

impl TextureWrap {
    /// The GL enumerant of this wrap mode.
    pub fn to_gl(self) -> (r: u32)
        ensures
            r == wrap_gl(self),
    {
        match self {
            TextureWrap::Repeat => consts::REPEAT,
            TextureWrap::ClampToEdge => consts::CLAMP_TO_EDGE,
            TextureWrap::MirroredRepeat => consts::MIRRORED_REPEAT,
        }
    }
}

/// Checks the extent of a texture that is about to be created against the
/// GL's maximum texture size `max_size`.
///
/// Fails with `TooLarge(width, max_size)` if the width exceeds the maximum,
/// else with `TooLarge(height, max_size)` if the height does.
pub fn check_texture_size(width: u32, height: u32, max_size: u32) -> (r: Result<
    (),
    NewTextureError,
>)
    requires
        width > 0,
        height > 0,
    ensures
        r == (if width > max_size {
            Err(NewTextureError::TooLarge(width, max_size))
        } else if height > max_size {
            Err(NewTextureError::TooLarge(height, max_size))
        } else {
            Ok(())
        }),
        r is Ok <==> width <= max_size && height <= max_size,
{
    if width > max_size {
        return Err(NewTextureError::TooLarge(width, max_size));
    }
    if height > max_size {
        return Err(NewTextureError::TooLarge(height, max_size));
    }
    Ok(())
}

/// Whether a sub-image at `(x, y)` of extent `(width, height)` lies within a
/// texture of extent `(tex_width, tex_height)`.
pub open spec fn sub_image_in_bounds(
    x: u32,
    y: u32,
    width: u32,
    height: u32,
    tex_width: u32,
    tex_height: u32,
) -> bool {
    x + width <= tex_width && y + height <= tex_height
}

/// Whether `(px, py)` is a pixel of a texture of extent
/// `(tex_width, tex_height)`.
pub open spec fn texture_has_pixel(px: int, py: int, tex_width: u32, tex_height: u32) -> bool {
    0 <= px < tex_width && 0 <= py < tex_height
}

/// A non-empty sub-image is in bounds exactly when each of its pixels is a
/// pixel of the texture.
pub proof fn lemma_sub_image_in_bounds_pixels(
    x: u32,
    y: u32,
    width: u32,
    height: u32,
    tex_width: u32,
    tex_height: u32,
)
    requires
        width > 0,
        height > 0,
    ensures
        sub_image_in_bounds(x, y, width, height, tex_width, tex_height) <==> forall|px: int, py: int|
            x <= px < x + width && y <= py < y + height ==> #[trigger] texture_has_pixel(
                px,
                py,
                tex_width,
                tex_height,
            ),
{
    if !sub_image_in_bounds(x, y, width, height, tex_width, tex_height) {
        if x + width > tex_width {
            let px = x + width - 1;
            let py = y as int;
            assert(x <= px < x + width && y <= py < y + height && !texture_has_pixel(
                px,
                py,
                tex_width,
                tex_height,
            ));
        } else {
            let px = x as int;
            let py = y + height - 1;
            assert(x <= px < x + width && y <= py < y + height && !texture_has_pixel(
                px,
                py,
                tex_width,
                tex_height,
            ));
        }
    }
}

/// Checks that a sub-image at `(x, y)` of extent `(width, height)` lies
/// within a texture of extent `(tex_width, tex_height)`.
pub fn is_sub_image_in_bounds(
    x: u32,
    y: u32,
    width: u32,
    height: u32,
    tex_width: u32,
    tex_height: u32,
) -> (r: bool)
    ensures
        r == sub_image_in_bounds(x, y, width, height, tex_width, tex_height),
{
    (x as u64) + (width as u64) <= tex_width as u64 && (y as u64) + (height as u64)
        <= tex_height as u64
}

/// Whether `len` bytes are exactly the RGBA bytes of an image of extent
/// `(width, height)`.
pub fn is_rgba_len(len: usize, width: u32, height: u32) -> (r: bool)
    ensures
        r == (len == width * height * 4),
{
    let w = width as u128;
    let h = height as u128;
    assert(w * h <= 0xFFFF_FFFF * 0xFFFF_FFFF) by (nonlinear_arith)
        requires
            w <= 0xFFFF_FFFF,
            h <= 0xFFFF_FFFF,
    ;
    len as u128 == w * h * 4
}

/// Distinct minification filters have distinct GL enumerants.
pub proof fn lemma_min_filter_gl_injective(a: TextureMinFilter, b: TextureMinFilter)
    ensures
        min_filter_gl(a) == min_filter_gl(b) ==> a == b,
{
}

/// The GL enumerant of each value, against the GL's constants: each constant names exactly one value.
pub proof fn lemma_internal_format_gl_values(x: TextureValueType)
    ensures
        (internal_format_gl(x) == consts::RGBA8) == (x == TextureValueType::RgbaU8),
        (internal_format_gl(x) == consts::RGBA16F) == (x == TextureValueType::RgbaF16),
        (internal_format_gl(x) == consts::RGBA32F) == (x == TextureValueType::RgbaF32),
        (internal_format_gl(x) == consts::RG16F) == (x == TextureValueType::RgF16),
        (internal_format_gl(x) == consts::DEPTH_COMPONENT24) == (x == TextureValueType::Depth),
{
}

/// The GL enumerant of each value, against the GL's constants.
pub proof fn lemma_format_gl_values(x: TextureValueType)
    ensures
        x == TextureValueType::RgbaU8 ==> format_gl(x) == consts::RGBA,
        x == TextureValueType::RgbaF16 ==> format_gl(x) == consts::RGBA,
        x == TextureValueType::RgbaF32 ==> format_gl(x) == consts::RGBA,
        x == TextureValueType::RgF16 ==> format_gl(x) == consts::RG,
        x == TextureValueType::Depth ==> format_gl(x) == consts::DEPTH_COMPONENT,
{
}

/// The GL enumerant of each value, against the GL's constants.
pub proof fn lemma_type_gl_values(x: TextureValueType)
    ensures
        x == TextureValueType::RgbaU8 ==> type_gl(x) == consts::UNSIGNED_BYTE,
        x == TextureValueType::RgbaF16 ==> type_gl(x) == consts::HALF_FLOAT,
        x == TextureValueType::RgbaF32 ==> type_gl(x) == consts::FLOAT,
        x == TextureValueType::RgF16 ==> type_gl(x) == consts::HALF_FLOAT,
        x == TextureValueType::Depth ==> type_gl(x) == consts::UNSIGNED_INT,
{
}

/// The GL enumerant of each value, against the GL's constants: each constant names exactly one value.
pub proof fn lemma_min_filter_gl_values(x: TextureMinFilter)
    ensures
        (min_filter_gl(x) == consts::LINEAR) == (x == TextureMinFilter::Linear),
        (min_filter_gl(x) == consts::NEAREST) == (x == TextureMinFilter::Nearest),
        (min_filter_gl(x) == consts::NEAREST_MIPMAP_NEAREST) == (x == TextureMinFilter::NearestMipmapNearest),
        (min_filter_gl(x) == consts::LINEAR_MIPMAP_NEAREST) == (x == TextureMinFilter::LinearMipmapNearest),
        (min_filter_gl(x) == consts::NEAREST_MIPMAP_LINEAR) == (x == TextureMinFilter::NearestMipmapLinear),
        (min_filter_gl(x) == consts::LINEAR_MIPMAP_LINEAR) == (x == TextureMinFilter::LinearMipmapLinear),
{
}

/// The GL enumerant of each value, against the GL's constants: each constant names exactly one value.
pub proof fn lemma_mag_filter_gl_values(x: TextureMagFilter)
    ensures
        (mag_filter_gl(x) == consts::LINEAR) == (x == TextureMagFilter::Linear),
        (mag_filter_gl(x) == consts::NEAREST) == (x == TextureMagFilter::Nearest),
{
}

/// The GL enumerant of each value, against the GL's constants: each constant names exactly one value.
pub proof fn lemma_wrap_gl_values(x: TextureWrap)
    ensures
        (wrap_gl(x) == consts::REPEAT) == (x == TextureWrap::Repeat),
        (wrap_gl(x) == consts::CLAMP_TO_EDGE) == (x == TextureWrap::ClampToEdge),
        (wrap_gl(x) == consts::MIRRORED_REPEAT) == (x == TextureWrap::MirroredRepeat),
{
}

} // verus!
