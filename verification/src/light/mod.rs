//! The 2D light pipeline: its parameters, the textures and draw state it
//! sets up, and the element indices of the geometry it draws.

pub mod def;
pub mod geometry;
pub mod pipeline;

pub use def::LightPipelineParams;
pub use pipeline::NewLightPipelineError;
