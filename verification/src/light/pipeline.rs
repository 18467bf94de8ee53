//! The decisions of the light pipeline: which lights are drawn, how large
//! its screen-sized buffers are, which textures its framebuffers hold and
//! the state that reflectors are drawn with.

use vstd::prelude::*;

use super::def::LightPipelineParams;
use crate::gl::draw_params::DrawParams;
use crate::gl::framebuffer::{AttachmentSource, NewFramebufferError};
use crate::gl::texture::{
    TextureMagFilter, TextureMinFilter, TextureParams, TextureValueType, TextureWrap,
};
use crate::gl::{Error, NewTextureError};

verus! {

/// Why the light pipeline could not be created.
#[derive(Debug)]
pub enum NewLightPipelineError {
    OpenGL(Error),
    NewTexture(NewTextureError),
    NewFramebuffer(NewFramebufferError),
}

/// The position of the albedo texture in the screen geometry framebuffer.
pub const SCREEN_ALBEDO_LOCATION: usize = 0;
/// The position of the normals texture in the screen geometry framebuffer.
pub const SCREEN_NORMALS_LOCATION: usize = 1;
/// The position of the occlusion texture in the screen geometry
/// framebuffer.
pub const SCREEN_OCCLUSION_LOCATION: usize = 2;

/// The number of lights of a list of `num_lights` that are drawn: the list
/// is cut to `max_num_lights` when its length, as a `u32`, exceeds it.
pub open spec fn drawn_light_count_spec(num_lights: usize, max_num_lights: u32) -> usize {
    if num_lights as u32 > max_num_lights {
        max_num_lights as usize
    } else {
        num_lights
    }
}

/// The number of lights of a list of `num_lights` that are drawn.
pub fn drawn_light_count(num_lights: usize, max_num_lights: u32) -> (r: usize)
    ensures
        r == drawn_light_count_spec(num_lights, max_num_lights),
{
    if num_lights as u32 > max_num_lights {
        max_num_lights as usize
    } else {
        num_lights
    }
}

/// The drawn lights are a prefix of the lights: never more than there are,
/// and never more than `max_num_lights` when the number of lights fits a
/// `u32`.
pub proof fn lemma_drawn_lights_are_a_prefix(num_lights: usize, max_num_lights: u32)
    ensures
        drawn_light_count_spec(num_lights, max_num_lights) <= num_lights,
        num_lights <= u32::MAX ==> drawn_light_count_spec(num_lights, max_num_lights)
            <= max_num_lights,
{
    assert((num_lights as u32) as usize <= num_lights) by (bit_vector);
}

/// The extent of the screen-sized buffers: the canvas's physical extent,
/// but no larger than the GL's maximum texture size in either direction.
pub fn screen_light_size(physical_width: u32, physical_height: u32, max_size: u32) -> (r: (
    u32,
    u32,
))
    ensures
        r.0 == (if physical_width < max_size { physical_width } else { max_size }),
        r.1 == (if physical_height < max_size { physical_height } else { max_size }),
{
    let w = if physical_width < max_size {
        physical_width
    } else {
        max_size
    };
    let h = if physical_height < max_size {
        physical_height
    } else {
        max_size
    };
    (w, h)
}

/// Texture parameters that clamp at the edges in both directions.
pub open spec fn clamped(
    value_type: TextureValueType,
    min_filter: TextureMinFilter,
    mag_filter: TextureMagFilter,
) -> TextureParams {
    TextureParams {
        value_type,
        min_filter,
        mag_filter,
        wrap_vertical: TextureWrap::ClampToEdge,
        wrap_horizontal: TextureWrap::ClampToEdge,
    }
}

fn clamped_params(
    value_type: TextureValueType,
    min_filter: TextureMinFilter,
    mag_filter: TextureMagFilter,
) -> (p: TextureParams)
    ensures
        p == clamped(value_type, min_filter, mag_filter),
{
    TextureParams {
        value_type,
        min_filter,
        mag_filter,
        wrap_vertical: TextureWrap::ClampToEdge,
        wrap_horizontal: TextureWrap::ClampToEdge,
    }
}

/// The extent and the parameters of the shadow map: one row of
/// `shadow_map_resolution` texels of two half floats per light.
pub fn shadow_map_texture(params: &LightPipelineParams) -> (r: ((u32, u32), TextureParams))
    ensures
        r.0 == (params.shadow_map_resolution, params.max_num_lights),
        r.1 == clamped(TextureValueType::RgF16, TextureMinFilter::Linear, TextureMagFilter::Linear),
{
    (
        (params.shadow_map_resolution, params.max_num_lights),
        clamped_params(TextureValueType::RgF16, TextureMinFilter::Linear, TextureMagFilter::Linear),
    )
}

/// The parameters of the textures of the screen geometry framebuffer, in
/// the order of their locations: albedo, normals, occlusion (mipmapped for
/// cone tracing), and depth.
pub fn screen_geometry_textures() -> (r: [TextureParams; 4])
    ensures
        r@ == seq![
            clamped(TextureValueType::RgbaU8, TextureMinFilter::Nearest, TextureMagFilter::Nearest),
            clamped(TextureValueType::RgbaF16, TextureMinFilter::Nearest, TextureMagFilter::Nearest),
            clamped(TextureValueType::RgbaU8, TextureMinFilter::LinearMipmapLinear, TextureMagFilter::Linear),
            clamped(TextureValueType::Depth, TextureMinFilter::Nearest, TextureMagFilter::Nearest),
        ],
{
    let r = [
        clamped_params(TextureValueType::RgbaU8, TextureMinFilter::Nearest, TextureMagFilter::Nearest),
        clamped_params(TextureValueType::RgbaF16, TextureMinFilter::Nearest, TextureMagFilter::Nearest),
        clamped_params(
            TextureValueType::RgbaU8,
            TextureMinFilter::LinearMipmapLinear,
            TextureMagFilter::Linear,
        ),
        clamped_params(TextureValueType::Depth, TextureMinFilter::Nearest, TextureMagFilter::Nearest),
    ];
    assert(r@ =~= seq![
        clamped(TextureValueType::RgbaU8, TextureMinFilter::Nearest, TextureMagFilter::Nearest),
        clamped(TextureValueType::RgbaF16, TextureMinFilter::Nearest, TextureMagFilter::Nearest),
        clamped(TextureValueType::RgbaU8, TextureMinFilter::LinearMipmapLinear, TextureMagFilter::Linear),
        clamped(TextureValueType::Depth, TextureMinFilter::Nearest, TextureMagFilter::Nearest),
    ]);
    r
}

/// The parameters of the texture of the screen reflector framebuffer
/// (mipmapped for cone tracing).
pub fn screen_reflector_texture() -> (r: TextureParams)
    ensures
        r == clamped(TextureValueType::RgbaU8, TextureMinFilter::LinearMipmapLinear, TextureMagFilter::Linear),
{
    clamped_params(TextureValueType::RgbaU8, TextureMinFilter::LinearMipmapLinear, TextureMagFilter::Linear)
}

/// The parameters of the texture of the screen light framebuffer.
pub fn screen_light_texture() -> (r: TextureParams)
    ensures
        r == clamped(TextureValueType::RgbaF32, TextureMinFilter::Nearest, TextureMagFilter::Nearest),
{
    clamped_params(TextureValueType::RgbaF32, TextureMinFilter::Nearest, TextureMagFilter::Nearest)
}

/// The attachment sources of the screen geometry framebuffer for textures
/// of the given extent, at their base level.
pub fn screen_geometry_sources(width: u32, height: u32) -> (r: Vec<AttachmentSource>)
    ensures
        r@ == seq![
            AttachmentSource { is_depth: false, width, height, mipmap_level: 0 },
            AttachmentSource { is_depth: false, width, height, mipmap_level: 0 },
            AttachmentSource { is_depth: false, width, height, mipmap_level: 0 },
            AttachmentSource { is_depth: true, width, height, mipmap_level: 0 },
        ],
{
    let textures = screen_geometry_textures();
    let mut r: Vec<AttachmentSource> = Vec::new();
    let mut i: usize = 0;
    while i < 4
        invariant
            i <= 4,
            textures@ == screen_geometry_textures_spec(),
            r@ == seq![
                AttachmentSource { is_depth: false, width, height, mipmap_level: 0 },
                AttachmentSource { is_depth: false, width, height, mipmap_level: 0 },
                AttachmentSource { is_depth: false, width, height, mipmap_level: 0 },
                AttachmentSource { is_depth: true, width, height, mipmap_level: 0 },
            ].take(i as int),
        decreases 4 - i,
    {
        r.push(
            AttachmentSource {
                is_depth: textures[i].value_type.is_depth(),
                width,
                height,
                mipmap_level: 0,
            },
        );
        assert(r@ =~= seq![
            AttachmentSource { is_depth: false, width, height, mipmap_level: 0 },
            AttachmentSource { is_depth: false, width, height, mipmap_level: 0 },
            AttachmentSource { is_depth: false, width, height, mipmap_level: 0 },
            AttachmentSource { is_depth: true, width, height, mipmap_level: 0 },
        ].take(i + 1));
        i += 1;
    }
    assert(r@ =~= seq![
        AttachmentSource { is_depth: false, width, height, mipmap_level: 0 },
        AttachmentSource { is_depth: false, width, height, mipmap_level: 0 },
        AttachmentSource { is_depth: false, width, height, mipmap_level: 0 },
        AttachmentSource { is_depth: true, width, height, mipmap_level: 0 },
    ]);
    r
}

/// The parameters of the screen geometry textures, in order.
pub open spec fn screen_geometry_textures_spec() -> Seq<TextureParams> {
    seq![
        clamped(TextureValueType::RgbaU8, TextureMinFilter::Nearest, TextureMagFilter::Nearest),
        clamped(TextureValueType::RgbaF16, TextureMinFilter::Nearest, TextureMagFilter::Nearest),
        clamped(TextureValueType::RgbaU8, TextureMinFilter::LinearMipmapLinear, TextureMagFilter::Linear),
        clamped(TextureValueType::Depth, TextureMinFilter::Nearest, TextureMagFilter::Nearest),
    ]
}

/// The state that reflectors are drawn with: the given state, but without
/// writing the alpha channel.
pub fn reflector_draw_params(params: &DrawParams) -> (r: DrawParams)
    ensures
        r == (DrawParams { color_mask: (true, true, true, false), ..*params }),
{
    DrawParams { color_mask: (true, true, true, false), ..*params }
}

} // verus!
