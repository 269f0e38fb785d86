//! The time uniform, the bind group that exposes it, and the fixed state of
//! the render pipeline.

use vstd::prelude::*;
use crate::buffer::{BufferPlan, BufferUsage};
use crate::instance::{get_instance_buffer_layout, instance_layout};
use crate::layout::{uses_location, BufferLayout};
use crate::state::SurfaceConfig;
use crate::vertex::{vertex_layout, Vertex};

verus! {

/// Bytes of the uniform: one 32-bit float.
pub const UNIFORM_SIZE: u64 = 4;

/// The shader location that no stream may feed.
pub const SKIPPED_LOCATION: u32 = 1;

/// The only data sent to the GPU each frame: the time since the context was
/// created, as whole seconds and the nanoseconds beyond them.
#[derive(Clone, Copy, Debug, PartialEq, Eq, Structural)]
pub struct Uniforms {
    pub secs: u64,
    pub subsec_nanos: u32,
}

/// How the uniform buffer is exposed to the shader.
#[derive(Clone, Copy, Debug, PartialEq, Eq, Structural)]
pub struct UniformBinding {
    pub group: u32,
    pub binding: u32,
    pub visible_to_vertex: bool,
    pub visible_to_fragment: bool,
    pub has_dynamic_offset: bool,
    pub size: u64,
}

#[derive(Clone, Copy, Debug, PartialEq, Eq, Structural)]
pub enum Topology {
    PointList,
    LineList,
    LineStrip,
    TriangleList,
    TriangleStrip,
}

#[derive(Clone, Copy, Debug, PartialEq, Eq, Structural)]
pub enum FrontFace {
    Ccw,
    Cw,
}

#[derive(Clone, Copy, Debug, PartialEq, Eq, Structural)]
pub enum Face {
    Front,
    Back,
}

#[derive(Clone, Copy, Debug, PartialEq, Eq, Structural)]
pub enum PolygonMode {
    Fill,
    Line,
    Point,
}

#[derive(Clone, Copy, Debug, PartialEq, Eq, Structural)]
pub enum Blend {
    /// The new colour replaces the old one.
    Replace,
    AlphaBlending,
    PremultipliedAlphaBlending,
}

/// The fixed-function state of the pipeline.
#[derive(Clone, Copy, Debug, PartialEq, Eq, Structural)]
pub struct FixedState {
    pub topology: Topology,
    pub front_face: FrontFace,
    pub cull_mode: Option<Face>,
    pub polygon_mode: PolygonMode,
    pub depth_stencil: bool,
    pub sample_count: u32,
    pub blend: Blend,
    pub write_all_channels: bool,
}

/// Everything the render pipeline is built from.
#[derive(Debug, PartialEq, Eq)]
pub struct PipelinePlan {
    pub vertex_entry: &'static str,
    pub fragment_entry: &'static str,
    pub buffers: Vec<BufferLayout>,
    pub binding: UniformBinding,
    pub fixed: FixedState,
    pub target_format: wgpu::TextureFormat,
}

/// Binding 0 of group 0: a 4-byte uniform that only the vertex stage sees.
pub open spec fn uniform_binding() -> UniformBinding {
    UniformBinding {
        group: 0,
        binding: 0,
        visible_to_vertex: true,
        visible_to_fragment: false,
        has_dynamic_offset: false,
        size: UNIFORM_SIZE,
    }
}

/// Triangle lists with counter-clockwise front faces, back faces culled,
/// filled, without depth or stencil test, one sample per pixel, one colour
/// target that each fragment overwrites in all channels.
pub open spec fn fixed_state() -> FixedState {
    FixedState {
        topology: Topology::TriangleList,
        front_face: FrontFace::Ccw,
        cull_mode: Some(Face::Back),
        polygon_mode: PolygonMode::Fill,
        depth_stencil: false,
        sample_count: 1,
        blend: Blend::Replace,
        write_all_channels: true,
    }
}

/// Both streams are sound, together they feed six different shader
/// locations, and none of them is the skipped location.
pub proof fn lemma_streams_are_sound()
    ensures
        vertex_layout().is_sound(),
        instance_layout().is_sound(),
        !uses_location(vertex_layout().attributes + instance_layout().attributes, SKIPPED_LOCATION),
        forall|i: int, j: int|
            #![trigger vertex_layout().attributes[i], instance_layout().attributes[j]]
            0 <= i < vertex_layout().attributes.len() && 0 <= j < instance_layout().attributes.len()
                ==> vertex_layout().attributes[i].shader_location
                != instance_layout().attributes[j].shader_location,
{
    let v = vertex_layout().attributes;
    let a = instance_layout().attributes;
    assert(v.len() == 1);
    assert(a.len() == 5);
    assert(a[0].offset == 0 && a[1].offset == 8 && a[2].offset == 12 && a[3].offset == 16
        && a[4].offset == 24);
    let both = v + a;
    assert(both.len() == 6);
    assert(both[0] == v[0]);
    assert(both[1] == a[0] && both[2] == a[1] && both[3] == a[2] && both[4] == a[3] && both[5]
        == a[4]);
}

impl PipelinePlan {
    /// Whether this is the pipeline that draws the stars onto a target of
    /// format `format`: the two entry points, the per-vertex stream followed
    /// by the per-instance stream, the uniform binding and the fixed state.
    pub open spec fn is_the_star_pipeline(&self, format: wgpu::TextureFormat) -> bool {
        &&& self.vertex_entry@ == "vertexMain"@
        &&& self.fragment_entry@ == "fragmentMain"@
        &&& self.buffers@.len() == 2
        &&& self.buffers@[0]@ == vertex_layout()
        &&& self.buffers@[1]@ == instance_layout()
        &&& self.binding == uniform_binding()
        &&& self.fixed == fixed_state()
        &&& self.target_format == format
    }
}

impl Uniforms {
    /// The uniform buffer: 4 bytes, usable as a uniform that the queue may
    /// write into.
    pub open spec fn uniform_buffer() -> BufferPlan {
        BufferPlan { size: UNIFORM_SIZE, usage: BufferUsage::writable_uniform() }
    }

    /// What the uniform buffer must be.
    pub fn get_uniform_buffer() -> (plan: BufferPlan)
        ensures
            plan == Uniforms::uniform_buffer(),
    {
        BufferPlan { size: UNIFORM_SIZE, usage: BufferUsage::uniform() }
    }

    /// How the uniform is bound.
    pub fn get_uniform_bind_groups() -> (binding: UniformBinding)
        ensures
            binding == uniform_binding(),
    {
        UniformBinding {
            group: 0,
            binding: 0,
            visible_to_vertex: true,
            visible_to_fragment: false,
            has_dynamic_offset: false,
            size: UNIFORM_SIZE,
        }
    }

    /// The pipeline for a surface configured as `config`, with the surface's
    /// format as the format of the colour target.
    pub fn get_render_setting(config: &SurfaceConfig) -> (plan: PipelinePlan)
        ensures
            plan.is_the_star_pipeline(config.format),
    {
        let mut buffers: Vec<BufferLayout> = Vec::new();
        buffers.push(Vertex::get_vertex_buffer_layout());
        buffers.push(get_instance_buffer_layout());
        PipelinePlan {
            vertex_entry: "vertexMain",
            fragment_entry: "fragmentMain",
            buffers,
            binding: Uniforms::get_uniform_bind_groups(),
            fixed: FixedState {
                topology: Topology::TriangleList,
                front_face: FrontFace::Ccw,
                cull_mode: Some(Face::Back),
                polygon_mode: PolygonMode::Fill,
                depth_stencil: false,
                sample_count: 1,
                blend: Blend::Replace,
                write_all_channels: true,
            },
            target_format: config.format,
        }
    }
}

} // verus!
