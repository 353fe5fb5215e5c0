//! The fixed configuration with which every drawable's graphics pipeline is
//! created.
use vstd::prelude::*;

use crate::binding::{positions, vertex_references, Descriptor, ReferenceShape};

verus! {

/// Number of sample points per pixel of every drawable pipeline.
pub const SAMPLE_COUNT: u32 = 4;

/// Number of bind groups in a pipeline layout: the drawable's own and the
/// shared one.
pub const BIND_GROUP_COUNT: u32 = 2;

/// How primitives are assembled and rasterised.
#[derive(Clone, Copy, Debug, PartialEq, Eq, Structural)]
pub enum Topology {
    TriangleList,
    TriangleStrip,
}

/// Which winding faces forward.
#[derive(Clone, Copy, Debug, PartialEq, Eq, Structural)]
pub enum FrontFace {
    CounterClockwise,
    Clockwise,
}

/// Everything a drawable's pipeline descriptor needs beyond its shaders, its
/// layouts and the target format.
#[derive(Debug)]
pub struct PipelineSettings {
    /// The push-constant range, `0..push_constant_size`, seen by every stage.
    pub push_constant_size: u32,
    /// Number of bind groups in the pipeline layout.
    pub bind_group_count: u32,
    /// Positions of the references whose vertex-buffer layouts are used.
    pub vertex_buffers: Vec<usize>,
    pub topology: Topology,
    pub front_face: FrontFace,
    pub cull_faces: bool,
    pub alpha_blending: bool,
    pub write_all_colors: bool,
    pub sample_count: u32,
    pub depth_stencil: bool,
}

/// The pipeline configuration of a drawable whose references have the given
/// shapes, with per-frame constants of `constants_size` bytes: triangle
/// lists, counter-clockwise front faces, no culling, alpha blending onto every
/// colour channel, four samples and no depth or stencil.
pub fn pipeline_settings(refs: &Vec<ReferenceShape>, constants_size: u32) -> (s: PipelineSettings)
    ensures
        s.push_constant_size == constants_size,
        s.bind_group_count == BIND_GROUP_COUNT,
        s.vertex_buffers@.len() == positions(refs@, Descriptor::Vertex).len(),
        forall|k: int|
            0 <= k < s.vertex_buffers@.len() ==> s.vertex_buffers@[k] == positions(
                refs@,
                Descriptor::Vertex,
            )[k],
        s.topology == Topology::TriangleList,
        s.front_face == FrontFace::CounterClockwise,
        !s.cull_faces,
        s.alpha_blending,
        s.write_all_colors,
        s.sample_count == SAMPLE_COUNT,
        !s.depth_stencil,
{
    PipelineSettings {
        push_constant_size: constants_size,
        bind_group_count: BIND_GROUP_COUNT,
        vertex_buffers: vertex_references(refs),
        topology: Topology::TriangleList,
        front_face: FrontFace::CounterClockwise,
        cull_faces: false,
        alpha_blending: true,
        write_all_colors: true,
        sample_count: SAMPLE_COUNT,
        depth_stencil: false,
    }
}

} // verus!
