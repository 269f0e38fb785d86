use starfield::buffer::BufferUsage;
use starfield::error::{Disposition, InitError, RenderError};
use starfield::platform::{ClearColor, Platform, RandomSource};
use starfield::state::{
    surface_configuration, ContextState, DrawCall, FramePlan, IndexFormat, Reply, Request, Size,
    SurfaceConfig, WgpuState, FRAME_LATENCY,
};
use starfield::stats::FrameReport;
use starfield::uniform::Uniforms;

fn formats() -> Vec<wgpu::TextureFormat> {
    vec![
        wgpu::TextureFormat::Bgra8UnormSrgb,
        wgpu::TextureFormat::Rgba8Unorm,
        wgpu::TextureFormat::Bgra8Unorm,
    ]
}

fn present_modes() -> Vec<wgpu::PresentMode> {
    vec![wgpu::PresentMode::Mailbox, wgpu::PresentMode::Fifo]
}

fn alpha_modes() -> Vec<wgpu::CompositeAlphaMode> {
    vec![wgpu::CompositeAlphaMode::Opaque, wgpu::CompositeAlphaMode::PreMultiplied]
}

fn context(platform: Platform, width: u32, height: u32) -> WgpuState {
    match WgpuState::new(
        platform,
        Size { width, height },
        &formats(),
        &present_modes(),
        &alpha_modes(),
    ) {
        Ok((state, _)) => state,
        Err(error) => panic!("no context: {:?}", error),
    }
}

fn elapsed(secs: u64, subsec_nanos: u32) -> Uniforms {
    Uniforms { secs, subsec_nanos }
}

#[test]
fn configuration_takes_the_first_format_and_modes_reported() {
    let config = surface_configuration(
        &formats(),
        &present_modes(),
        &alpha_modes(),
        Size { width: 800, height: 600 },
    );
    assert_eq!(
        config,
        Some(SurfaceConfig {
            format: wgpu::TextureFormat::Bgra8UnormSrgb,
            present_mode: wgpu::PresentMode::Mailbox,
            alpha_mode: wgpu::CompositeAlphaMode::Opaque,
            width: 800,
            height: 600,
            desired_maximum_frame_latency: 1,
        })
    );
}

#[test]
fn configuration_does_not_rank_what_is_reported() {
    let reversed: Vec<wgpu::TextureFormat> = formats().into_iter().rev().collect();
    let modes = vec![wgpu::PresentMode::Fifo, wgpu::PresentMode::Immediate];
    let config =
        surface_configuration(&reversed, &modes, &alpha_modes(), Size { width: 2, height: 3 });
    let config = config.unwrap();
    assert_eq!(config.format, wgpu::TextureFormat::Bgra8Unorm);
    assert_eq!(config.present_mode, wgpu::PresentMode::Fifo);
}

#[test]
fn configuration_raises_zero_dimensions_to_one() {
    let config = surface_configuration(
        &formats(),
        &present_modes(),
        &alpha_modes(),
        Size { width: 0, height: 0 },
    )
    .unwrap();
    assert_eq!((config.width, config.height), (1, 1));
    let config = surface_configuration(
        &formats(),
        &present_modes(),
        &alpha_modes(),
        Size { width: 0, height: 77 },
    )
    .unwrap();
    assert_eq!((config.width, config.height), (1, 77));
}

#[test]
fn configuration_always_asks_for_a_frame_latency_of_one() {
    assert_eq!(FRAME_LATENCY, 1);
    let config = surface_configuration(
        &formats(),
        &present_modes(),
        &alpha_modes(),
        Size { width: 1920, height: 1080 },
    )
    .unwrap();
    assert_eq!(config.desired_maximum_frame_latency, 1);
}

#[test]
fn there_is_no_configuration_without_a_reported_format_or_mode() {
    let size = Size { width: 10, height: 10 };
    let no_formats: Vec<wgpu::TextureFormat> = Vec::new();
    let no_present: Vec<wgpu::PresentMode> = Vec::new();
    let no_alpha: Vec<wgpu::CompositeAlphaMode> = Vec::new();
    assert_eq!(surface_configuration(&no_formats, &present_modes(), &alpha_modes(), size), None);
    assert_eq!(surface_configuration(&formats(), &no_present, &alpha_modes(), size), None);
    assert_eq!(surface_configuration(&formats(), &present_modes(), &no_alpha, size), None);
}

#[test]
fn new_context_holds_the_chosen_configuration_and_the_counts_of_the_star() {
    let (state, resources) = WgpuState::new(
        Platform::Native,
        Size { width: 450, height: 400 },
        &formats(),
        &present_modes(),
        &alpha_modes(),
    )
    .unwrap();
    assert_eq!(state.platform, Platform::Native);
    assert_eq!(state.size, Size { width: 450, height: 400 });
    assert_eq!(state.config.format, wgpu::TextureFormat::Bgra8UnormSrgb);
    assert_eq!(state.config.present_mode, wgpu::PresentMode::Mailbox);
    assert_eq!(state.config.alpha_mode, wgpu::CompositeAlphaMode::Opaque);
    assert_eq!((state.config.width, state.config.height), (450, 400));
    assert_eq!(state.config.desired_maximum_frame_latency, 1);
    assert_eq!(state.num_vertices, 6);
    assert_eq!(state.num_indices, 15);
    assert_eq!(state.frame_stats.frame_count(), 0);
    assert_eq!(resources.vertices.len(), 6);
    assert_eq!(resources.indices, vec![0, 1, 3, 0, 2, 4, 0, 3, 5, 0, 4, 1, 0, 5, 2]);
    assert_eq!(resources.index_bytes.len(), 30);
    assert_eq!(resources.vertex_buffer.size, 48);
    assert_eq!(resources.index_buffer.size, 30);
    assert_eq!(resources.instance_buffer.size, 14000);
    assert_eq!(resources.uniform_buffer.size, 4);
    assert_eq!(
        resources.index_buffer.usage,
        BufferUsage { vertex: false, index: true, uniform: false, copy_dst: false }
    );
    assert_eq!(resources.instances.count, 500);
    assert_eq!(resources.instances.source, RandomSource::Entropy);
    assert_eq!(resources.pipeline.target_format, state.config.format);
    assert_eq!(resources.pipeline.buffers.len(), 2);
}

#[test]
fn new_context_on_an_embedded_target_plans_seeded_instances() {
    let (_, resources) = WgpuState::new(
        Platform::Embedded,
        Size { width: 450, height: 400 },
        &formats(),
        &present_modes(),
        &alpha_modes(),
    )
    .unwrap();
    assert_eq!(resources.instances.source, RandomSource::Seeded { seed: 0 });
    assert_eq!(resources.instances.count, 500);
}

#[test]
fn new_context_is_built_the_same_way_twice() {
    let size = Size { width: 450, height: 400 };
    let first =
        WgpuState::new(Platform::Embedded, size, &formats(), &present_modes(), &alpha_modes())
            .unwrap();
    let second =
        WgpuState::new(Platform::Embedded, size, &formats(), &present_modes(), &alpha_modes())
            .unwrap();
    assert_eq!(first.1, second.1);
    assert_eq!(first.0.config, second.0.config);
}

#[test]
fn new_context_for_a_minimised_window_keeps_the_size_and_configures_one_by_one() {
    let state = context(Platform::Native, 0, 0);
    assert_eq!(state.size, Size { width: 0, height: 0 });
    assert_eq!((state.config.width, state.config.height), (1, 1));
}

#[test]
fn no_context_when_the_surface_supports_nothing() {
    let none: Vec<wgpu::TextureFormat> = Vec::new();
    let created = WgpuState::new(
        Platform::Native,
        Size { width: 450, height: 400 },
        &none,
        &present_modes(),
        &alpha_modes(),
    );
    assert_eq!(created.err(), Some(InitError::NoAdapterFound));
}

#[test]
fn resize_to_zero_width_changes_nothing() {
    let mut state = context(Platform::Native, 640, 480);
    let before = state.config;
    assert!(!state.resize(Size { width: 0, height: 300 }));
    assert_eq!(state.size, Size { width: 640, height: 480 });
    assert_eq!(state.config, before);
}

#[test]
fn resize_to_zero_height_changes_nothing() {
    let mut state = context(Platform::Native, 640, 480);
    let before = state.config;
    assert!(!state.resize(Size { width: 300, height: 0 }));
    assert!(!state.resize(Size { width: 0, height: 0 }));
    assert_eq!(state.size, Size { width: 640, height: 480 });
    assert_eq!(state.config, before);
}

#[test]
fn resize_stores_exactly_the_new_size() {
    let mut state = context(Platform::Native, 640, 480);
    assert!(state.resize(Size { width: 1024, height: 768 }));
    assert_eq!(state.size, Size { width: 1024, height: 768 });
    assert_eq!((state.config.width, state.config.height), (1024, 768));
    assert_eq!(state.config.format, wgpu::TextureFormat::Bgra8UnormSrgb);
    assert_eq!(state.config.present_mode, wgpu::PresentMode::Mailbox);
    assert_eq!(state.config.desired_maximum_frame_latency, 1);
    assert_eq!(state.num_indices, 15);
    assert!(state.resize(Size { width: u32::MAX, height: 1 }));
    assert_eq!(state.size, Size { width: u32::MAX, height: 1 });
}

#[test]
fn resize_twice_to_the_same_size_is_the_same_as_once() {
    let mut state = context(Platform::Embedded, 640, 480);
    assert!(state.resize(Size { width: 300, height: 200 }));
    let once = (state.size, state.config, state.num_vertices, state.num_indices);
    assert!(state.resize(Size { width: 300, height: 200 }));
    assert!(state.resize(Size { width: 300, height: 200 }));
    assert_eq!((state.size, state.config, state.num_vertices, state.num_indices), once);
}

#[test]
fn render_hands_each_acquisition_error_on() {
    let state = context(Platform::Native, 640, 480);
    for error in [
        RenderError::SurfaceLost,
        RenderError::SurfaceOutdated,
        RenderError::OutOfMemory,
        RenderError::Timeout,
    ] {
        assert_eq!(state.render(Err(error), elapsed(1, 0)), Err(error));
    }
}

#[test]
fn render_draws_all_indices_and_all_instances_once() {
    let state = context(Platform::Native, 640, 480);
    let plan = state.render(Ok(()), elapsed(12, 345_678_901));
    assert_eq!(
        plan,
        Ok(FramePlan {
            uniforms: Uniforms { secs: 12, subsec_nanos: 345_678_901 },
            clear_color: ClearColor::OpaqueBlack,
            bind_group: 0,
            vertex_slot: 0,
            instance_slot: 1,
            index_format: IndexFormat::Uint16,
            draw: DrawCall {
                first_index: 0,
                index_count: 15,
                base_vertex: 0,
                first_instance: 0,
                instance_count: 500,
            },
        })
    );
}

#[test]
fn render_clears_to_transparent_on_an_embedded_target() {
    let state = context(Platform::Embedded, 640, 480);
    let plan = state.render(Ok(()), elapsed(0, 0)).unwrap();
    assert_eq!(plan.clear_color, ClearColor::Transparent);
    assert_eq!(plan.draw.instance_count, 500);
}

#[test]
fn render_changes_only_the_uniform_from_frame_to_frame() {
    let state = context(Platform::Native, 640, 480);
    let first = state.render(Ok(()), elapsed(1, 0)).unwrap();
    let second = state.render(Ok(()), elapsed(2, 500)).unwrap();
    assert_eq!(first.uniforms, Uniforms { secs: 1, subsec_nanos: 0 });
    assert_eq!(second.uniforms, Uniforms { secs: 2, subsec_nanos: 500 });
    assert_eq!(FramePlan { uniforms: first.uniforms, ..second }, first);
}

#[test]
fn lost_surface_is_recovered_by_resize_and_retry() {
    let mut state = context(Platform::Native, 640, 480);
    for error in [RenderError::SurfaceLost, RenderError::SurfaceOutdated] {
        let failed = state.render(Err(error), elapsed(3, 0));
        assert_eq!(failed, Err(error));
        assert_eq!(error.disposition(), Disposition::Reconfigure);
        let stored = state.size;
        assert!(state.resize(stored));
        assert_eq!(state.size, Size { width: 640, height: 480 });
        assert_eq!((state.config.width, state.config.height), (640, 480));
        let retried = state.render(Ok(()), elapsed(3, 16_000_000));
        assert!(retried.is_ok());
        assert_ne!(retried, Err(error));
    }
}

#[test]
fn finish_frame_reports_on_the_sixtieth_frame_and_not_on_the_first() {
    let mut state = context(Platform::Native, 640, 480);
    assert_eq!(state.finish_frame(5), None);
    for _ in 2..60 {
        assert_eq!(state.finish_frame(5), None);
    }
    assert_eq!(
        state.finish_frame(65),
        Some(FrameReport { min_time: 5, max_time: 65, average_time: 6, frame_count: 60 })
    );
    assert_eq!(state.finish_frame(1), None);
}

#[test]
fn finish_frame_reports_cumulative_figures_every_sixty_frames() {
    let mut state = context(Platform::Embedded, 640, 480);
    let mut reports: Vec<FrameReport> = Vec::new();
    for frame in 1..=180u64 {
        if let Some(report) = state.finish_frame(frame) {
            reports.push(report);
        }
    }
    assert_eq!(
        reports,
        vec![
            FrameReport { min_time: 1, max_time: 60, average_time: 30, frame_count: 60 },
            FrameReport { min_time: 1, max_time: 120, average_time: 60, frame_count: 120 },
            FrameReport { min_time: 1, max_time: 180, average_time: 90, frame_count: 180 },
        ]
    );
    assert_eq!(state.size, Size { width: 640, height: 480 });
    assert_eq!(state.num_indices, 15);
}

#[test]
fn input_consumes_no_event() {
    let mut state = context(Platform::Native, 640, 480);
    assert!(!state.input(&winit::event::WindowEvent::CloseRequested));
    assert!(!state.input(&winit::event::WindowEvent::RedrawRequested));
    assert!(!state.input(&winit::event::WindowEvent::Focused(true)));
    assert_eq!(state.size, Size { width: 640, height: 480 });
}

#[test]
fn update_changes_nothing() {
    let mut state = context(Platform::Native, 640, 480);
    let before = (state.size, state.config, state.num_vertices, state.num_indices);
    state.update();
    assert_eq!((state.size, state.config, state.num_vertices, state.num_indices), before);
    assert_eq!(state.frame_stats.frame_count(), 0);
}

#[test]
fn negotiation_passes_through_every_state_in_order() {
    let mut state = ContextState::Uninitialized;
    let expected = [
        (Request::BindSurface, Reply::SurfaceBound, ContextState::SurfaceBound),
        (Request::SelectAdapter, Reply::AdapterFound, ContextState::AdapterSelected),
        (Request::RequestDevice, Reply::DeviceGranted, ContextState::DeviceReady),
        (Request::ConfigureSurface, Reply::SurfaceConfigured, ContextState::SurfaceConfigured),
    ];
    for (request, reply, next) in expected {
        assert_eq!(state.pending(), Some(request));
        assert_eq!(state.advance(reply), Ok(next));
        state = next;
    }
    assert_eq!(state.pending(), None);
}

#[test]
fn negotiation_fails_without_an_adapter() {
    assert_eq!(
        ContextState::SurfaceBound.advance(Reply::NoAdapter),
        Err(InitError::NoAdapterFound)
    );
}

#[test]
fn negotiation_fails_when_the_device_is_refused() {
    assert_eq!(
        ContextState::AdapterSelected.advance(Reply::DeviceRefused),
        Err(InitError::DeviceRequestFailed)
    );
}

#[test]
fn negotiation_ignores_replies_to_what_is_not_open() {
    let states = [
        ContextState::Uninitialized,
        ContextState::SurfaceBound,
        ContextState::AdapterSelected,
        ContextState::DeviceReady,
        ContextState::SurfaceConfigured,
    ];
    let replies = [
        Reply::SurfaceBound,
        Reply::AdapterFound,
        Reply::NoAdapter,
        Reply::DeviceGranted,
        Reply::DeviceRefused,
        Reply::SurfaceConfigured,
    ];
    for (rank, state) in states.iter().enumerate() {
        for reply in replies {
            match state.advance(reply) {
                Ok(next) => {
                    let next_rank = states.iter().position(|s| *s == next).unwrap();
                    assert!(next_rank == rank || next_rank == rank + 1);
                }
                Err(InitError::NoAdapterFound) => {
                    assert_eq!((*state, reply), (ContextState::SurfaceBound, Reply::NoAdapter))
                }
                Err(InitError::DeviceRequestFailed) => assert_eq!(
                    (*state, reply),
                    (ContextState::AdapterSelected, Reply::DeviceRefused)
                ),
            }
        }
    }
    assert_eq!(
        ContextState::Uninitialized.advance(Reply::DeviceGranted),
        Ok(ContextState::Uninitialized)
    );
    assert_eq!(
        ContextState::SurfaceConfigured.advance(Reply::NoAdapter),
        Ok(ContextState::SurfaceConfigured)
    );
}
