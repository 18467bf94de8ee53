//! OpenGL ES 3.0 enumerant values that the library passes to the GL.
//!
//! The values are fixed by the Khronos registry; the tests hold each of them
//! against the constant of the same name in `glow`.

use vstd::prelude::*;

verus! {

pub const FUNC_ADD: u32 = 0x8006;
pub const FUNC_SUBTRACT: u32 = 0x800A;
pub const FUNC_REVERSE_SUBTRACT: u32 = 0x800B;
pub const MAX: u32 = 0x8008;
pub const MIN: u32 = 0x8007;
pub const ZERO: u32 = 0;
pub const ONE: u32 = 1;
pub const SRC_COLOR: u32 = 0x0300;
pub const ONE_MINUS_SRC_COLOR: u32 = 0x0301;
pub const DST_COLOR: u32 = 0x0306;
pub const ONE_MINUS_DST_COLOR: u32 = 0x0307;
pub const SRC_ALPHA: u32 = 0x0302;
pub const ONE_MINUS_SRC_ALPHA: u32 = 0x0303;
pub const DST_ALPHA: u32 = 0x0304;
pub const ONE_MINUS_DST_ALPHA: u32 = 0x0305;
pub const SRC_ALPHA_SATURATE: u32 = 0x0308;
pub const CONSTANT_COLOR: u32 = 0x8001;
pub const ONE_MINUS_CONSTANT_COLOR: u32 = 0x8002;
pub const CONSTANT_ALPHA: u32 = 0x8003;
pub const ONE_MINUS_CONSTANT_ALPHA: u32 = 0x8004;
pub const NEVER: u32 = 0x0200;
pub const LESS: u32 = 0x0201;
pub const EQUAL: u32 = 0x0202;
pub const LEQUAL: u32 = 0x0203;
pub const GREATER: u32 = 0x0204;
pub const NOTEQUAL: u32 = 0x0205;
pub const GEQUAL: u32 = 0x0206;
pub const ALWAYS: u32 = 0x0207;
pub const LINES: u32 = 0x0001;
pub const TRIANGLES: u32 = 0x0004;
pub const UNSIGNED_INT: u32 = 0x1405;
pub const UNSIGNED_SHORT: u32 = 0x1403;
pub const RGBA8: u32 = 0x8058;
pub const RGBA16F: u32 = 0x881A;
pub const RGBA32F: u32 = 0x8814;
pub const RG16F: u32 = 0x822F;
pub const DEPTH_COMPONENT24: u32 = 0x81A6;
pub const RGBA: u32 = 0x1908;
pub const RG: u32 = 0x8227;
pub const DEPTH_COMPONENT: u32 = 0x1902;
pub const UNSIGNED_BYTE: u32 = 0x1401;
pub const HALF_FLOAT: u32 = 0x140B;
pub const FLOAT: u32 = 0x1406;
pub const INT: u32 = 0x1404;
pub const LINEAR: u32 = 0x2601;
pub const NEAREST: u32 = 0x2600;
pub const NEAREST_MIPMAP_NEAREST: u32 = 0x2700;
pub const LINEAR_MIPMAP_NEAREST: u32 = 0x2701;
pub const NEAREST_MIPMAP_LINEAR: u32 = 0x2702;
pub const LINEAR_MIPMAP_LINEAR: u32 = 0x2703;
pub const REPEAT: u32 = 0x2901;
pub const CLAMP_TO_EDGE: u32 = 0x812F;
pub const MIRRORED_REPEAT: u32 = 0x8370;
pub const COLOR_ATTACHMENT0: u32 = 0x8CE0;
pub const DEPTH_ATTACHMENT: u32 = 0x8D00;
pub const VERTEX_SHADER: u32 = 0x8B31;
pub const FRAGMENT_SHADER: u32 = 0x8B30;
pub const BLEND: u32 = 0x0BE2;
pub const DEPTH_TEST: u32 = 0x0B71;
pub const TEXTURE_MIN_FILTER: u32 = 0x2801;
pub const TEXTURE_MAG_FILTER: u32 = 0x2800;
pub const TEXTURE_WRAP_S: u32 = 0x2802;
pub const TEXTURE_WRAP_T: u32 = 0x2803;

} // verus!
