//! Parameters of the light pipeline.

use vstd::prelude::*;

verus! {

/// The sizes that the light pipeline is built with.
#[derive(Debug, Clone, Copy, PartialEq, Eq, Structural)]
pub struct LightPipelineParams {
    /// Texels per light in the shadow map.
    pub shadow_map_resolution: u32,
    /// The number of lights that are drawn at most.
    pub max_num_lights: u32,
    /// Cones traced per pixel for indirect light.
    pub num_tracing_cones: u32,
    /// Steps per traced cone.
    pub num_tracing_steps: u32,
}

impl Default for LightPipelineParams {
    /// 2048 texels per light, at most 512 lights, 6 cones of 8 steps.
    fn default() -> (p: Self)
        ensures
            p == (LightPipelineParams {
                shadow_map_resolution: 2048,
                max_num_lights: 512,
                num_tracing_cones: 6,
                num_tracing_steps: 8,
            }),
    {
        Self {
            shadow_map_resolution: 2048,
            max_num_lights: 512,
            num_tracing_cones: 6,
            num_tracing_steps: 8,
        }
    }
}

} // verus!
