//! The graphics context: how it comes into being, what it stores, how it
//! follows the window's size, and what it does each frame.

use vstd::prelude::*;
use crate::buffer::BufferPlan;
use crate::error::{InitError, RenderError};
use crate::geometry::{
    big_endian_bytes, create_star_vertices, index_buffer, little_endian_bytes, star_index_seq,
    INDEX_SIZE,
};
use crate::instance::{get_instance_buffer, instance_plan, InstancePlan, INSTANCE_STRIDE, STAR_INSTANCE_COUNT};
use crate::platform::{ClearColor, Platform};
use crate::stats::{report_due, seq_average, seq_max, seq_min, FrameReport, FrameStats};
use crate::uniform::{PipelinePlan, Uniforms};
use crate::vertex::{star_vertex_seq, Vertex, STAR_POINTS, VERTEX_STRIDE};

verus! {

/// `wgpu::TextureFormat`, carried through without looking inside.
#[verifier::external_type_specification]
#[verifier::external_body]
pub struct ExTextureFormat(wgpu::TextureFormat);

/// `wgpu::PresentMode`, carried through without looking inside.
#[verifier::external_type_specification]
#[verifier::external_body]
pub struct ExPresentMode(wgpu::PresentMode);

/// `wgpu::CompositeAlphaMode`, carried through without looking inside.
#[verifier::external_type_specification]
#[verifier::external_body]
pub struct ExCompositeAlphaMode(wgpu::CompositeAlphaMode);

/// `winit::event::WindowEvent`, which the context is shown and never reads.
#[verifier::external_type_specification]
#[verifier::external_body]
pub struct ExWindowEvent(winit::event::WindowEvent);

/// Frames that the presentation engine may queue ahead of the display.
pub const FRAME_LATENCY: u32 = 1;

/// A size in physical pixels.
#[derive(Clone, Copy, Debug, PartialEq, Eq, Structural)]
pub struct Size {
    pub width: u32,
    pub height: u32,
}

impl Size {
    /// Whether neither dimension is zero.
    pub open spec fn is_drawable(self) -> bool {
        self.width > 0 && self.height > 0
    }
}

/// How the surface presents: what only a resize changes are the width and the
/// height.
#[derive(Clone, Copy, Debug, PartialEq, Eq)]
pub struct SurfaceConfig {
    pub format: wgpu::TextureFormat,
    pub present_mode: wgpu::PresentMode,
    pub alpha_mode: wgpu::CompositeAlphaMode,
    pub width: u32,
    pub height: u32,
    pub desired_maximum_frame_latency: u32,
}

/// `x`, but at least 1.
pub open spec fn at_least_one(x: u32) -> u32 {
    if x == 0 {
        1
    } else {
        x
    }
}

/// The configuration chosen for a surface of `size` whose platform reports
/// these formats and modes: the first of each list, the size with each
/// dimension raised to at least 1, and a frame latency of 1.
pub open spec fn first_reported(
    formats: Seq<wgpu::TextureFormat>,
    present_modes: Seq<wgpu::PresentMode>,
    alpha_modes: Seq<wgpu::CompositeAlphaMode>,
    size: Size,
) -> SurfaceConfig {
    SurfaceConfig {
        format: formats[0],
        present_mode: present_modes[0],
        alpha_mode: alpha_modes[0],
        width: at_least_one(size.width),
        height: at_least_one(size.height),
        desired_maximum_frame_latency: FRAME_LATENCY,
    }
}

/// Chooses the surface configuration by taking the first format and the first
/// modes that the platform reports, with no ranking among them. There is no
/// configuration when one of the lists is empty.
pub fn surface_configuration(
    formats: &Vec<wgpu::TextureFormat>,
    present_modes: &Vec<wgpu::PresentMode>,
    alpha_modes: &Vec<wgpu::CompositeAlphaMode>,
    size: Size,
) -> (config: Option<SurfaceConfig>)
    ensures
        config is Some <==> formats@.len() > 0 && present_modes@.len() > 0 && alpha_modes@.len()
            > 0,
        config is Some ==> config->0 == first_reported(
            formats@,
            present_modes@,
            alpha_modes@,
            size,
        ),
{
    if formats.len() == 0 || present_modes.len() == 0 || alpha_modes.len() == 0 {
        return None;
    }
    let width: u32 = if size.width == 0 {
        1
    } else {
        size.width
    };
    let height: u32 = if size.height == 0 {
        1
    } else {
        size.height
    };
    Some(
        SurfaceConfig {
            format: formats[0],
            present_mode: present_modes[0],
            alpha_mode: alpha_modes[0],
            width,
            height,
            desired_maximum_frame_latency: FRAME_LATENCY,
        },
    )
}

/// How far the negotiation with the backend has come.
#[derive(Clone, Copy, Debug, PartialEq, Eq, Structural)]
pub enum ContextState {
    Uninitialized,
    SurfaceBound,
    AdapterSelected,
    DeviceReady,
    SurfaceConfigured,
}

/// What the context asks of the backend next.
#[derive(Clone, Copy, Debug, PartialEq, Eq, Structural)]
pub enum Request {
    BindSurface,
    SelectAdapter,
    RequestDevice,
    ConfigureSurface,
}

/// What the backend answered.
#[derive(Clone, Copy, Debug, PartialEq, Eq, Structural)]
pub enum Reply {
    SurfaceBound,
    AdapterFound,
    NoAdapter,
    DeviceGranted,
    DeviceRefused,
    SurfaceConfigured,
}

impl ContextState {
    /// Position of the state in the one order in which states are passed.
    pub open spec fn rank(self) -> nat {
        match self {
            ContextState::Uninitialized => 0,
            ContextState::SurfaceBound => 1,
            ContextState::AdapterSelected => 2,
            ContextState::DeviceReady => 3,
            ContextState::SurfaceConfigured => 4,
        }
    }

    /// The request that is open in this state; none once the surface is
    /// configured.
    pub open spec fn spec_pending(self) -> Option<Request> {
        match self {
            ContextState::Uninitialized => Some(Request::BindSurface),
            ContextState::SurfaceBound => Some(Request::SelectAdapter),
            ContextState::AdapterSelected => Some(Request::RequestDevice),
            ContextState::DeviceReady => Some(Request::ConfigureSurface),
            ContextState::SurfaceConfigured => None,
        }
    }

    /// Where a reply leads. The reply that grants the open request leads to
    /// the next state; a missing adapter or a refused device, while that is
    /// what was asked for, ends the negotiation; any other reply answers
    /// nothing that is open and changes nothing.
    pub open spec fn spec_advance(self, reply: Reply) -> Result<ContextState, InitError> {
        match (self, reply) {
            (ContextState::Uninitialized, Reply::SurfaceBound) => Ok(ContextState::SurfaceBound),
            (ContextState::SurfaceBound, Reply::AdapterFound) => Ok(ContextState::AdapterSelected),
            (ContextState::SurfaceBound, Reply::NoAdapter) => Err(InitError::NoAdapterFound),
            (ContextState::AdapterSelected, Reply::DeviceGranted) => Ok(ContextState::DeviceReady),
            (ContextState::AdapterSelected, Reply::DeviceRefused) => Err(
                InitError::DeviceRequestFailed,
            ),
            (ContextState::DeviceReady, Reply::SurfaceConfigured) => Ok(
                ContextState::SurfaceConfigured,
            ),
            _ => Ok(self),
        }
    }

    /// The request to make in this state.
    pub fn pending(self) -> (request: Option<Request>)
        ensures
            request == self.spec_pending(),
    {
        match self {
            ContextState::Uninitialized => Some(Request::BindSurface),
            ContextState::SurfaceBound => Some(Request::SelectAdapter),
            ContextState::AdapterSelected => Some(Request::RequestDevice),
            ContextState::DeviceReady => Some(Request::ConfigureSurface),
            ContextState::SurfaceConfigured => None,
        }
    }

    /// Takes the backend's reply into account.
    pub fn advance(self, reply: Reply) -> (next: Result<ContextState, InitError>)
        ensures
            next == self.spec_advance(reply),
    {
        match (self, reply) {
            (ContextState::Uninitialized, Reply::SurfaceBound) => Ok(ContextState::SurfaceBound),
            (ContextState::SurfaceBound, Reply::AdapterFound) => Ok(ContextState::AdapterSelected),
            (ContextState::SurfaceBound, Reply::NoAdapter) => Err(InitError::NoAdapterFound),
            (ContextState::AdapterSelected, Reply::DeviceGranted) => Ok(ContextState::DeviceReady),
            (ContextState::AdapterSelected, Reply::DeviceRefused) => Err(
                InitError::DeviceRequestFailed,
            ),
            (ContextState::DeviceReady, Reply::SurfaceConfigured) => Ok(
                ContextState::SurfaceConfigured,
            ),
            _ => Ok(self),
        }
    }
}

/// The negotiation is linear: a reply either leaves the state as it is or
/// moves it exactly one place forward, never back, and once the surface is
/// configured nothing moves it again.
pub proof fn lemma_negotiation_is_linear(state: ContextState, reply: Reply)
    ensures
        state.spec_advance(reply) matches Ok(next) ==> next == state || next.rank() == state.rank()
            + 1,
        state == ContextState::SurfaceConfigured ==> state.spec_advance(reply) == Ok::<
            ContextState,
            InitError,
        >(state),
        state.spec_advance(reply) is Err <==> (state == ContextState::SurfaceBound && reply
            == Reply::NoAdapter) || (state == ContextState::AdapterSelected && reply
            == Reply::DeviceRefused),
{
}

/// A resize to a size with a zero dimension leaves the whole context, stored
/// configuration and size included, as it was.
pub proof fn lemma_resize_ignores_empty_size(state: WgpuState, new_size: Size)
    requires
        new_size.width == 0 || new_size.height == 0,
    ensures
        state.spec_resize(new_size) == state,
{
}

/// A resize to a size without a zero dimension stores exactly that size, in
/// the stored size and in the configuration, and changes nothing else.
pub proof fn lemma_resize_stores_size(state: WgpuState, new_size: Size)
    requires
        new_size.width > 0,
        new_size.height > 0,
    ensures
        state.spec_resize(new_size).size == new_size,
        state.spec_resize(new_size).config.width == new_size.width,
        state.spec_resize(new_size).config.height == new_size.height,
        state.spec_resize(new_size).config.format == state.config.format,
        state.spec_resize(new_size).config.present_mode == state.config.present_mode,
        state.spec_resize(new_size).config.alpha_mode == state.config.alpha_mode,
        state.spec_resize(new_size).config.desired_maximum_frame_latency
            == state.config.desired_maximum_frame_latency,
        state.spec_resize(new_size).platform == state.platform,
        state.spec_resize(new_size).num_vertices == state.num_vertices,
        state.spec_resize(new_size).num_indices == state.num_indices,
        state.spec_resize(new_size).frame_stats == state.frame_stats,
{
}

/// Resizing twice to the same size gives what resizing once gives.
pub proof fn lemma_resize_is_idempotent(state: WgpuState, new_size: Size)
    ensures
        state.spec_resize(new_size).spec_resize(new_size) == state.spec_resize(new_size),
{
}

/// A resize changes nothing of what is drawn with an acquired frame.
pub proof fn lemma_resize_keeps_frame_plan(state: WgpuState, new_size: Size, elapsed: Uniforms)
    ensures
        state.spec_resize(new_size).frame_plan(elapsed) == state.frame_plan(elapsed),
{
}

/// The width of the indices in the index buffer.
#[derive(Clone, Copy, Debug, PartialEq, Eq, Structural)]
pub enum IndexFormat {
    Uint16,
    Uint32,
}

/// One indexed, instanced draw.
#[derive(Clone, Copy, Debug, PartialEq, Eq, Structural)]
pub struct DrawCall {
    pub first_index: u32,
    pub index_count: u32,
    pub base_vertex: i32,
    pub first_instance: u32,
    pub instance_count: u32,
}

/// Everything that is done with an acquired frame.
#[derive(Clone, Copy, Debug, PartialEq, Eq, Structural)]
pub struct FramePlan {
    /// The payload written to the start of the uniform buffer.
    pub uniforms: Uniforms,
    pub clear_color: ClearColor,
    /// The bind group index at which the uniform bind group is set.
    pub bind_group: u32,
    /// The slot of the shared geometry.
    pub vertex_slot: u32,
    /// The slot of the instances.
    pub instance_slot: u32,
    pub index_format: IndexFormat,
    pub draw: DrawCall,
}

/// All that is built once, when the context is created, and never changed.
#[derive(Debug, PartialEq, Eq)]
pub struct Resources {
    pub vertices: Vec<Vertex>,
    pub indices: Vec<u16>,
    pub index_bytes: Vec<u8>,
    pub vertex_buffer: BufferPlan,
    pub index_buffer: BufferPlan,
    pub instance_buffer: BufferPlan,
    pub uniform_buffer: BufferPlan,
    pub instances: InstancePlan,
    pub pipeline: PipelinePlan,
}

/// The context after negotiation: the stored configuration and size, the
/// counts that the draw needs, and the statistics.
pub struct WgpuState {
    pub platform: Platform,
    pub config: SurfaceConfig,
    pub size: Size,
    pub num_vertices: u32,
    pub num_indices: u32,
    pub frame_stats: FrameStats,
}

impl WgpuState {
    /// Whether the stored configuration can be handed to the surface and
    /// agrees with the stored size.
    pub open spec fn is_consistent(&self) -> bool {
        &&& self.config.width > 0
        &&& self.config.height > 0
        &&& self.config.desired_maximum_frame_latency == FRAME_LATENCY
        &&& self.size.is_drawable() ==> self.config.width == self.size.width && self.config.height
            == self.size.height
    }

    /// The context after a resize to `new_size`: unchanged when a dimension
    /// is zero, else with the new size stored and written into the
    /// configuration.
    pub open spec fn spec_resize(self, new_size: Size) -> WgpuState {
        if new_size.is_drawable() {
            WgpuState {
                size: new_size,
                config: SurfaceConfig {
                    width: new_size.width,
                    height: new_size.height,
                    ..self.config
                },
                ..self
            }
        } else {
            self
        }
    }

    /// What is done with a frame acquired `elapsed` after the context was
    /// created: the elapsed time goes into the uniform, the target is cleared
    /// as the platform asks, the uniform is bound at 0, the geometry at slot 0
    /// and the instances at slot 1, and one draw covers all indices and all
    /// instances.
    pub open spec fn frame_plan(&self, elapsed: Uniforms) -> FramePlan {
        FramePlan {
            uniforms: elapsed,
            clear_color: self.platform.spec_clear_color(),
            bind_group: 0,
            vertex_slot: 0,
            instance_slot: 1,
            index_format: IndexFormat::Uint16,
            draw: DrawCall {
                first_index: 0,
                index_count: self.num_indices,
                base_vertex: 0,
                first_instance: 0,
                instance_count: STAR_INSTANCE_COUNT,
            },
        }
    }

    /// Follows a change of the window's size. A size with a zero dimension is
    /// ignored. Otherwise the size is stored, the configuration takes its
    /// width and height, and the surface has to be reconfigured with it
    /// before the next frame is acquired: the result says whether.
    pub fn resize(&mut self, new_size: Size) -> (reconfigure: bool)
        ensures
            *final(self) == old(self).spec_resize(new_size),
            reconfigure == new_size.is_drawable(),
            old(self).is_consistent() ==> final(self).is_consistent(),
    {
        if new_size.width > 0 && new_size.height > 0 {
            self.size = new_size;
            self.config.width = new_size.width;
            self.config.height = new_size.height;
            true
        } else {
            false
        }
    }

    /// No window event is consumed by the context.
    pub fn input(&mut self, event: &winit::event::WindowEvent) -> (handled: bool)
        ensures
            !handled,
            *final(self) == *old(self),
    {
        false
    }

    /// Nothing changes between frames on the CPU side.
    pub fn update(&mut self)
        ensures
            *final(self) == *old(self),
    {
    }

    /// Decides what happens with this frame. When the frame could not be
    /// acquired, the error is handed on and nothing is drawn; otherwise the
    /// frame is drawn as `frame_plan` says.
    pub fn render(&self, acquired: Result<(), RenderError>, elapsed: Uniforms) -> (plan: Result<
        FramePlan,
        RenderError,
    >)
        ensures
            acquired matches Err(e) ==> plan == Err::<FramePlan, RenderError>(e),
            acquired is Ok ==> plan == Ok::<FramePlan, RenderError>(self.frame_plan(elapsed)),
    {
        match acquired {
            Err(e) => Err(e),
            Ok(()) => Ok(
                FramePlan {
                    uniforms: elapsed,
                    clear_color: self.platform.clear_color(),
                    bind_group: 0,
                    vertex_slot: 0,
                    instance_slot: 1,
                    index_format: IndexFormat::Uint16,
                    draw: DrawCall {
                        first_index: 0,
                        index_count: self.num_indices,
                        base_vertex: 0,
                        first_instance: 0,
                        instance_count: STAR_INSTANCE_COUNT,
                    },
                },
            ),
        }
    }

    /// Records how long the frame just presented took. Every 60th frame the
    /// figures over all frames so far are handed back for reporting.
    pub fn finish_frame(&mut self, frame_time: u64) -> (report: Option<FrameReport>)
        requires
            old(self).frame_stats@.len() < u64::MAX,
        ensures
            final(self).frame_stats@ == old(self).frame_stats@.push(frame_time),
            final(self).platform == old(self).platform,
            final(self).config == old(self).config,
            final(self).size == old(self).size,
            final(self).num_vertices == old(self).num_vertices,
            final(self).num_indices == old(self).num_indices,
            report is Some <==> report_due(final(self).frame_stats@.len()),
            report matches Some(r) ==> {
                &&& r.min_time == seq_min(final(self).frame_stats@)
                &&& r.max_time == seq_max(final(self).frame_stats@)
                &&& r.average_time == seq_average(final(self).frame_stats@)
                &&& r.frame_count == final(self).frame_stats@.len()
            },
    {
        self.frame_stats.update(frame_time);
        if self.frame_stats.report_is_due() {
            Some(self.frame_stats.display_stats())
        } else {
            None
        }
    }

    /// Creates the context for a window of `size` on `platform`, once the
    /// backend has reported which formats and modes the surface supports.
    /// There is no context when it reported none, for then no adapter can
    /// present to the surface.
    pub fn new(
        platform: Platform,
        size: Size,
        formats: &Vec<wgpu::TextureFormat>,
        present_modes: &Vec<wgpu::PresentMode>,
        alpha_modes: &Vec<wgpu::CompositeAlphaMode>,
    ) -> (created: Result<(WgpuState, Resources), InitError>)
        ensures
            created is Ok <==> formats@.len() > 0 && present_modes@.len() > 0 && alpha_modes@.len()
                > 0,
            created matches Err(e) ==> e == InitError::NoAdapterFound,
            created matches Ok((state, resources)) ==> {
                &&& state.platform == platform
                &&& state.size == size
                &&& state.config == first_reported(formats@, present_modes@, alpha_modes@, size)
                &&& state.is_consistent()
                &&& state.frame_stats@ == Seq::<u64>::empty()
                &&& state.num_vertices == resources.vertices@.len()
                &&& state.num_indices == resources.indices@.len()
                &&& resources.vertices@ == star_vertex_seq(STAR_POINTS as int)
                &&& resources.indices@ == star_index_seq(STAR_POINTS as int)
                &&& state.num_vertices == STAR_POINTS + 1
                &&& state.num_indices == 3 * STAR_POINTS
                &&& (resources.index_bytes@ == little_endian_bytes(resources.indices@)
                    || resources.index_bytes@ == big_endian_bytes(resources.indices@))
                &&& resources.vertex_buffer.size == VERTEX_STRIDE * resources.vertices@.len()
                &&& resources.index_buffer.size == INDEX_SIZE * resources.indices@.len()
                &&& resources.instance_buffer.size == INSTANCE_STRIDE * STAR_INSTANCE_COUNT
                &&& resources.uniform_buffer == Uniforms::uniform_buffer()
                &&& resources.vertex_buffer.usage == crate::buffer::BufferUsage::vertex_only()
                &&& resources.index_buffer.usage == crate::buffer::BufferUsage::index_only()
                &&& resources.instance_buffer.usage == crate::buffer::BufferUsage::vertex_only()
                &&& resources.instances.count == STAR_INSTANCE_COUNT
                &&& resources.instances.source == platform.spec_random_source()
                &&& resources.pipeline.is_the_star_pipeline(state.config.format)
            },
    {
        let config = match surface_configuration(formats, present_modes, alpha_modes, size) {
            Some(config) => config,
            None => {
                return Err(InitError::NoAdapterFound);
            },
        };
        let uniform_buffer = Uniforms::get_uniform_buffer();
        let pipeline = Uniforms::get_render_setting(&config);
        let (vertices, indices) = create_star_vertices();
        let vertex_buffer = Vertex::get_vertex_buffer(&vertices);
        let (index_buffer, index_bytes) = index_buffer(&indices);
        let instances = instance_plan(platform);
        let instance_buffer = get_instance_buffer(instances.count);
        let state = WgpuState {
            platform,
            config,
            size,
            num_vertices: vertices.len() as u32,
            num_indices: indices.len() as u32,
            frame_stats: FrameStats::new(),
        };
        let resources = Resources {
            vertices,
            indices,
            index_bytes,
            vertex_buffer,
            index_buffer,
            instance_buffer,
            uniform_buffer,
            instances,
            pipeline,
        };
        Ok((state, resources))
    }
}

} // verus!
