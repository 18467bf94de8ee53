//! The GL side of the library: state descriptions and their GL enumerants,
//! the checks made before GL objects are created, shader source assembly,
//! draw call parameters, and the bookkeeping of timer queries.

pub mod blend;
pub mod consts;
pub mod depth_test;
pub mod draw;
pub mod draw_params;
pub mod draw_unit;
pub mod element;
pub mod error;
pub mod float_bits;
pub mod framebuffer;
pub mod program;
pub mod texture;
pub mod timer;
pub mod uniform_block;
pub mod vertex;

pub use blend::{Blend, BlendEquation, BlendFactor, BlendFunc, BlendOp};
pub use depth_test::{DepthFunc, DepthTest};
pub use draw_params::DrawParams;
pub use draw_unit::PrimitiveMode;
pub use element::Element;
pub use error::Error;
pub use framebuffer::NewFramebufferError;
pub use program::ProgramDef;
pub use texture::{
    NewTextureError, TextureMagFilter, TextureMinFilter, TextureParams, TextureValueType,
    TextureWrap,
};
pub use timer::{DrawTimer, DrawTimingInfo, FrameTimer, TimingInfo};
pub use vertex::{Attribute, AttributeValueType, DataType};
