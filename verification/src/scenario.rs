//! Settings of the comparison scene: one thousand entities, each drawn with a
//! pipeline, a bind group and buffers of its own.
use vstd::prelude::*;

verus! {

/// The number of pipelines, and of entities drawn. A pipeline could be shared;
/// each entity gets its own to measure the worst case.
pub const PSO_COUNT: usize = 1000;

/// The shorter side of a `width` x `height` viewport; entities are scattered
/// over a region proportional to it.
pub fn viewport_min_side(width: u32, height: u32) -> (side: u32)
    ensures
        side == if width > height {
            height
        } else {
            width
        },
        side <= width,
        side <= height,
{
    if width > height {
        height
    } else {
        width
    }
}

/// The id of the page element that hosts the canvas: one for the WebGL build,
/// another for the WebGPU build.
pub fn container_id(webgl: bool) -> (id: &'static str)
    ensures
        webgl ==> id@ == "webgl-container"@,
        !webgl ==> id@ == "webgpu-container"@,
{
    if webgl {
        "webgl-container"
    } else {
        "webgpu-container"
    }
}

} // verus!
