use egui_wgpu::backend::Backend;
use egui_wgpu::capture::{CaptureAction, CaptureEvent, Extent3d};
use egui_wgpu::frame::FrameStep;
use egui_wgpu::model::{
    AdapterRequest, PaintAction, PaintEvent, RendererParameters, ResizeAction, ResizeEvent,
    SurfaceErrorAction, WgpuError, WindowAction, WindowEvent,
};
use egui_wgpu::painter::Painter;
use egui_wgpu::render_state::{OpenedDevice, WgpuConfiguration};
use egui_wgpu::surface::{DepthFormat, SurfaceConfiguration, SurfaceUpdate, TextureDescriptor};
use std::sync::Arc;

/// A backend whose objects are plain names and numbers.
struct Names;

impl Backend for Names {
    type Instance = &'static str;
    type Adapter = &'static str;
    type DeviceDescriptor = &'static str;
    type Device = &'static str;
    type Queue = &'static str;
    type Renderer = u32;
    type Surface = &'static str;
    type DepthView = u32;
    type Buffer = &'static str;
}

const FORMAT: wgpu::TextureFormat = wgpu::TextureFormat::Rgba8Unorm;

fn new_painter(depth_bits: u8) -> Painter<Names> {
    let configuration = WgpuConfiguration {
        backends: wgpu::Backends::PRIMARY.bits(),
        device_descriptor: "device",
        present_mode: wgpu::PresentMode::AutoVsync,
        power_preference: wgpu::PowerPreference::HighPerformance,
    };
    Painter::new(configuration, 4, depth_bits, "instance")
}

fn opened() -> OpenedDevice<Names> {
    OpenedDevice { device: "opened", queue: "queue", renderer: 11, max_texture_dimension_2d: 8192 }
}

fn extent(width: u32, height: u32) -> Extent3d {
    Extent3d { width, height, depth_or_array_layers: 1 }
}

fn configuration(width: u32, height: u32) -> SurfaceConfiguration {
    SurfaceConfiguration::new(FORMAT, wgpu::PresentMode::AutoVsync, width, height)
}

/// What has to be done to a new surface of this size.
fn measured(
    painter: &mut Painter<Names>,
    surface: &'static str,
    width: u32,
    height: u32,
) -> SurfaceUpdate {
    match painter.set_window(WindowEvent::Measured { surface, width, height }) {
        WindowAction::Configure(update) => update,
        other => panic!("{:?}", other),
    }
}

/// A painter with a window of this size.
fn painter_with_window(depth_bits: u8, width: u32, height: u32) -> Painter<Names> {
    let mut painter = new_painter(depth_bits);
    painter.set_window(WindowEvent::Given);
    painter.set_window(WindowEvent::SurfaceCreated);
    painter.set_window(WindowEvent::AdapterAnswered(Some("adapter")));
    let parameters = match painter.set_window(WindowEvent::FormatChosen(FORMAT)) {
        WindowAction::RequestDevice(parameters) => parameters,
        other => panic!("{:?}", other),
    };
    painter.set_window(WindowEvent::DeviceGranted { parameters, opened: opened() });
    let update = measured(&mut painter, "surface", width, height);
    let depth_view = if depth_bits > 0 { Some(1) } else { None };
    let done = painter.set_window(WindowEvent::Configured { update, depth_view });
    assert_eq!(done, WindowAction::Finished(Ok(())));
    painter
}

/// What a painter with a window asks for when the window has this size.
fn resized(painter: &mut Painter<Names>, width: u32, height: u32) -> SurfaceUpdate {
    match painter.on_window_resized(ResizeEvent::Resized { width, height }) {
        ResizeAction::Update(update) => update,
        other => panic!("{:?}", other),
    }
}

#[test]
fn a_new_painter_has_only_an_instance() {
    let painter = new_painter(0);
    assert_eq!(*painter.instance(), "instance");
    assert_eq!(painter.configuration().device_descriptor, "device");
    assert_eq!(painter.configuration().backends, wgpu::Backends::PRIMARY.bits());
    assert!(painter.render_state().is_none());
    assert_eq!(painter.adapter(), None);
    assert_eq!(painter.surface_state(), None);
    assert_eq!(painter.depth_texture_view(), None);
    assert_eq!(painter.screen_capture_buffer(), None);
    assert_eq!(painter.max_texture_side(), None);
}

#[test]
fn the_first_window_opens_a_device() {
    let mut painter = new_painter(24);
    assert_eq!(painter.set_window(WindowEvent::Given), WindowAction::CreateSurface);
    let request = AdapterRequest {
        power_preference: wgpu::PowerPreference::HighPerformance,
        force_fallback_adapter: false,
    };
    assert_eq!(
        painter.set_window(WindowEvent::SurfaceCreated),
        WindowAction::RequestAdapter(request)
    );
    assert_eq!(
        painter.set_window(WindowEvent::AdapterAnswered(Some("adapter"))),
        WindowAction::ChooseFormat
    );
    assert_eq!(painter.adapter(), Some(&"adapter"));
    let parameters = RendererParameters {
        target_format: FORMAT,
        depth_format: Some(DepthFormat::Depth32Float),
        msaa_samples: 4,
    };
    assert_eq!(
        painter.set_window(WindowEvent::FormatChosen(FORMAT)),
        WindowAction::RequestDevice(parameters)
    );
    assert_eq!(
        painter.set_window(WindowEvent::DeviceGranted { parameters, opened: opened() }),
        WindowAction::Measure
    );
    assert_eq!(painter.surface_state(), None);
    let update = measured(&mut painter, "surface", 30, 20);
    assert_eq!(update.configuration, configuration(30, 20));
    let texture = TextureDescriptor::depth(DepthFormat::Depth32Float, 30, 20);
    assert_eq!(update.depth_texture, Some(texture));
    assert_eq!(painter.surface_state().unwrap().surface, "surface");
    assert_eq!(painter.depth_texture_view(), None);
    let event = WindowEvent::Configured { update, depth_view: Some(5) };
    assert_eq!(painter.set_window(event), WindowAction::Finished(Ok(())));
    let surface_state = painter.surface_state().unwrap();
    assert_eq!(surface_state.surface, "surface");
    assert_eq!((surface_state.width, surface_state.height), (30, 20));
    assert_eq!(painter.depth_texture_view(), Some(&5));
    assert_eq!(painter.max_texture_side(), Some(8192));
}

#[test]
fn a_later_window_uses_the_device_that_is_there() {
    let mut painter = painter_with_window(0, 10, 10);
    assert_eq!(painter.set_window(WindowEvent::Given), WindowAction::CreateSurface);
    assert_eq!(painter.set_window(WindowEvent::SurfaceCreated), WindowAction::Measure);
    assert_eq!(painter.surface_state().unwrap().surface, "surface");
    let update = measured(&mut painter, "later", 7, 8);
    assert_eq!(update.configuration, configuration(7, 8));
    assert_eq!(update.depth_texture, None);
    let surface_state = painter.surface_state().unwrap();
    assert_eq!(surface_state.surface, "later");
    assert_eq!((surface_state.width, surface_state.height), (7, 8));
}

#[test]
fn a_window_without_a_surface_is_refused() {
    let mut painter = painter_with_window(0, 10, 10);
    painter.set_window(WindowEvent::Given);
    assert_eq!(
        painter.set_window(WindowEvent::SurfaceRefused),
        WindowAction::Finished(Err(WgpuError::CreateSurface))
    );
    assert_eq!(painter.surface_state().unwrap().width, 10);
}

#[test]
fn a_window_without_an_adapter_is_refused() {
    let mut painter = new_painter(0);
    painter.set_window(WindowEvent::Given);
    painter.set_window(WindowEvent::SurfaceCreated);
    assert_eq!(
        painter.set_window(WindowEvent::AdapterAnswered(None)),
        WindowAction::Finished(Err(WgpuError::RequestDevice))
    );
    assert_eq!(painter.adapter(), None);
    assert!(painter.surface_state().is_none());
}

#[test]
fn a_window_without_a_device_is_refused_but_the_adapter_is_kept() {
    let mut painter = new_painter(0);
    painter.set_window(WindowEvent::Given);
    painter.set_window(WindowEvent::SurfaceCreated);
    painter.set_window(WindowEvent::AdapterAnswered(Some("adapter")));
    painter.set_window(WindowEvent::FormatChosen(FORMAT));
    assert_eq!(
        painter.set_window(WindowEvent::DeviceRefused),
        WindowAction::Finished(Err(WgpuError::RequestDevice))
    );
    assert!(painter.render_state().is_none());
    painter.set_window(WindowEvent::Given);
    assert_eq!(painter.set_window(WindowEvent::SurfaceCreated), WindowAction::ChooseFormat);
    let parameters =
        RendererParameters { target_format: FORMAT, depth_format: None, msaa_samples: 4 };
    assert_eq!(
        painter.set_window(WindowEvent::FormatChosen(FORMAT)),
        WindowAction::RequestDevice(parameters)
    );
}

#[test]
fn surfaces_are_configured_with_the_format_of_the_renderer() {
    let format = wgpu::TextureFormat::Bgra8UnormSrgb;
    let mut painter = new_painter(0);
    painter.set_window(WindowEvent::Given);
    painter.set_window(WindowEvent::SurfaceCreated);
    painter.set_window(WindowEvent::AdapterAnswered(Some("adapter")));
    let parameters = match painter.set_window(WindowEvent::FormatChosen(format)) {
        WindowAction::RequestDevice(parameters) => parameters,
        other => panic!("{:?}", other),
    };
    assert_eq!(parameters.target_format, format);
    painter.set_window(WindowEvent::DeviceGranted { parameters, opened: opened() });
    assert_eq!(painter.render_state().unwrap().target_format, format);
    assert_eq!(measured(&mut painter, "surface", 1, 1).configuration.format, format);
}

#[test]
fn a_paint_that_draws_nothing_comes_to_nothing() {
    let painter = painter_with_window(0, 3, 2);
    assert_eq!(PaintAction::Skip.result(Some(vec![1])), None);
    let event = PaintEvent::FrameRefused(SurfaceErrorAction::RecreateSurface);
    assert_eq!(painter.paint_and_update_textures(event).result(Some(vec![1])), None);
}

#[test]
fn a_painted_frame_comes_to_its_capture() {
    let painter = painter_with_window(0, 3, 2);
    let event = PaintEvent::FrameAcquired { set: 1, free: 1, capture: true };
    let action = painter.paint_and_update_textures(event);
    assert_eq!(action.result(Some(vec![1, 2])), Some(vec![1, 2]));
    assert_eq!(action.result(None), None);
    let event = PaintEvent::FrameAcquired { set: 1, free: 1, capture: false };
    let action = painter.paint_and_update_textures(event);
    assert_eq!(action.result(Some(vec![1, 2])), None);
}

#[test]
fn the_render_state_is_shared() {
    let painter = painter_with_window(0, 10, 10);
    let first = painter.render_state().unwrap();
    let second = painter.render_state().unwrap();
    assert!(Arc::ptr_eq(&first.device, &second.device));
    assert!(Arc::ptr_eq(&first.queue, &second.queue));
    assert!(Arc::ptr_eq(&first.renderer, &second.renderer));
    assert_eq!(*first.device, "opened");
    assert_eq!(*first.queue, "queue");
    assert_eq!(*first.renderer, 11);
    assert_eq!(first.target_format, FORMAT);
}

#[test]
fn a_cleared_window_is_not_painted_to() {
    let mut painter = painter_with_window(24, 10, 10);
    assert_eq!(painter.set_window(WindowEvent::Cleared), WindowAction::Finished(Ok(())));
    assert_eq!(painter.surface_state(), None);
    assert_eq!(painter.paint_and_update_textures(PaintEvent::Requested), PaintAction::Skip);
    let event = ResizeEvent::Resized { width: 1, height: 2 };
    assert_eq!(painter.on_window_resized(event), ResizeAction::Ignore);
    assert_eq!(painter.max_texture_side(), Some(8192));
    assert_eq!(painter.depth_texture_view(), Some(&1));
}

#[test]
fn a_cleared_window_can_be_set_again() {
    let mut painter = painter_with_window(0, 10, 10);
    let device = painter.render_state().unwrap().device;
    painter.set_window(WindowEvent::Cleared);
    painter.set_window(WindowEvent::Given);
    assert_eq!(painter.set_window(WindowEvent::SurfaceCreated), WindowAction::Measure);
    let update = measured(&mut painter, "next", 6, 7);
    painter.set_window(WindowEvent::Configured { update, depth_view: None });
    assert_eq!(painter.surface_state().unwrap().surface, "next");
    assert_eq!(painter.surface_state().unwrap().height, 7);
    assert!(Arc::ptr_eq(&device, &painter.render_state().unwrap().device));
    assert_eq!(
        painter.paint_and_update_textures(PaintEvent::Requested),
        PaintAction::AcquireFrame
    );
}

#[test]
fn a_resized_window_gets_a_new_depth_texture() {
    let mut painter = painter_with_window(24, 10, 10);
    let update = resized(&mut painter, 50, 40);
    assert_eq!(update.configuration, configuration(50, 40));
    let texture = TextureDescriptor::depth(DepthFormat::Depth32Float, 50, 40);
    assert_eq!(update.depth_texture, Some(texture));
    assert_eq!(painter.surface_state().unwrap().width, 10);
    let event = ResizeEvent::Updated { update, depth_view: Some(2) };
    assert_eq!(painter.on_window_resized(event), ResizeAction::Finished);
    let surface_state = painter.surface_state().unwrap();
    assert_eq!(surface_state.surface, "surface");
    assert_eq!((surface_state.width, surface_state.height), (50, 40));
    assert_eq!(painter.depth_texture_view(), Some(&2));
}

#[test]
fn only_the_last_resize_counts() {
    let mut painter = painter_with_window(0, 10, 10);
    for (width, height) in [(1, 2), (3, 4)] {
        let update = resized(&mut painter, width, height);
        painter.on_window_resized(ResizeEvent::Updated { update, depth_view: None });
    }
    let surface_state = painter.surface_state().unwrap();
    assert_eq!((surface_state.width, surface_state.height), (3, 4));
}

#[test]
fn a_resize_without_a_window_is_ignored() {
    let mut painter = new_painter(24);
    let event = ResizeEvent::Resized { width: 5, height: 5 };
    assert_eq!(painter.on_window_resized(event), ResizeAction::Ignore);
}

#[test]
fn a_capture_goes_through_a_buffer() {
    let mut painter = painter_with_window(0, 2, 2);
    match painter.read_screen_rgba(extent(2, 2), CaptureEvent::Requested) {
        CaptureAction::CreateBuffer(descriptor) => assert_eq!(descriptor.size, 512),
        other => panic!("{:?}", other),
    }
    assert_eq!(painter.screen_capture_buffer(), None);
    match painter.read_screen_rgba(extent(2, 2), CaptureEvent::BufferCreated("buffer")) {
        CaptureAction::CopyTexture(copy) => {
            assert_eq!(copy.bytes_per_row, 256);
            assert_eq!(copy.extent, extent(2, 2));
        }
        other => panic!("{:?}", other),
    }
    let captured = painter.screen_capture_buffer().unwrap();
    assert_eq!((captured.buffer, captured.size), ("buffer", 512));
    let mut bytes = vec![0xeeu8; 512];
    for i in 0..8u8 {
        bytes[i as usize] = i;
        bytes[256 + i as usize] = 8 + i;
    }
    let pixels: Vec<u8> = (0..16).collect();
    assert_eq!(
        painter.read_screen_rgba(extent(2, 2), CaptureEvent::Mapped(&bytes)),
        CaptureAction::Unmap(pixels.clone())
    );
    assert_eq!(
        painter.read_screen_rgba(extent(2, 2), CaptureEvent::Unmapped(pixels.clone())),
        CaptureAction::Finished(Some(pixels))
    );
    match painter.read_screen_rgba(extent(2, 2), CaptureEvent::Requested) {
        CaptureAction::CopyTexture(copy) => assert_eq!(copy.extent, extent(2, 2)),
        other => panic!("{:?}", other),
    }
}

#[test]
fn a_second_capture_of_the_same_size_reuses_the_buffer() {
    let mut painter = painter_with_window(0, 2, 2);
    painter.read_screen_rgba(extent(2, 2), CaptureEvent::BufferCreated("first"));
    match painter.read_screen_rgba(extent(2, 2), CaptureEvent::Requested) {
        CaptureAction::CopyTexture(_) => {}
        other => panic!("{:?}", other),
    }
    match painter.read_screen_rgba(extent(2, 3), CaptureEvent::Requested) {
        CaptureAction::CreateBuffer(descriptor) => assert_eq!(descriptor.size, 768),
        other => panic!("{:?}", other),
    }
    painter.read_screen_rgba(extent(2, 3), CaptureEvent::BufferCreated("second"));
    assert_eq!(painter.screen_capture_buffer().unwrap().buffer, "second");
}

#[test]
fn nothing_is_captured_without_a_render_state() {
    let mut painter = new_painter(0);
    assert_eq!(
        painter.read_screen_rgba(extent(2, 2), CaptureEvent::Requested),
        CaptureAction::Finished(None)
    );
    assert_eq!(painter.screen_capture_buffer(), None);
}

#[test]
fn nothing_is_captured_without_a_window() {
    let mut painter = painter_with_window(0, 2, 2);
    painter.set_window(WindowEvent::Cleared);
    match painter.read_screen_rgba(extent(2, 2), CaptureEvent::Requested) {
        CaptureAction::CreateBuffer(_) => {}
        other => panic!("{:?}", other),
    }
    assert_eq!(
        painter.read_screen_rgba(extent(2, 2), CaptureEvent::BufferCreated("buffer")),
        CaptureAction::Finished(None)
    );
    assert_eq!(painter.screen_capture_buffer().unwrap().size, 512);
}

#[test]
fn empty_rows_are_not_captured() {
    let mut painter = painter_with_window(0, 2, 2);
    match painter.read_screen_rgba(extent(0, 9), CaptureEvent::Requested) {
        CaptureAction::CreateBuffer(descriptor) => assert_eq!(descriptor.size, 0),
        other => panic!("{:?}", other),
    }
    assert_eq!(
        painter.read_screen_rgba(extent(0, 9), CaptureEvent::BufferCreated("empty")),
        CaptureAction::Finished(None)
    );
}

#[test]
fn nothing_is_painted_before_there_is_a_window() {
    let painter = new_painter(0);
    assert_eq!(painter.paint_and_update_textures(PaintEvent::Requested), PaintAction::Skip);
}

#[test]
fn a_frame_is_painted_onto_the_surface() {
    let painter = painter_with_window(24, 300, 200);
    assert_eq!(
        painter.paint_and_update_textures(PaintEvent::Requested),
        PaintAction::AcquireFrame
    );
    let event = PaintEvent::FrameAcquired { set: 1, free: 1, capture: true };
    match painter.paint_and_update_textures(event) {
        PaintAction::Draw(plan) => {
            assert_eq!((plan.width, plan.height), (300, 200));
            assert!(plan.depth_attachment);
            assert_eq!(plan.steps.len(), 8);
            assert_eq!(plan.steps[1], FrameStep::UpdateTexture(0));
            assert_eq!(plan.steps[6], FrameStep::Capture);
        }
        other => panic!("{:?}", other),
    }
}

#[test]
fn a_painter_without_depth_has_no_depth_attachment() {
    let painter = painter_with_window(0, 300, 200);
    let event = PaintEvent::FrameAcquired { set: 0, free: 0, capture: false };
    match painter.paint_and_update_textures(event) {
        PaintAction::Draw(plan) => assert!(!plan.depth_attachment),
        other => panic!("{:?}", other),
    }
}

#[test]
fn a_refused_frame_is_skipped_or_the_surface_is_configured_anew() {
    let painter = painter_with_window(0, 300, 200);
    assert_eq!(
        painter.paint_and_update_textures(PaintEvent::FrameRefused(SurfaceErrorAction::SkipFrame)),
        PaintAction::Skip
    );
    let event = PaintEvent::FrameRefused(SurfaceErrorAction::RecreateSurface);
    assert_eq!(
        painter.paint_and_update_textures(event),
        PaintAction::ConfigureSurface(configuration(300, 200))
    );
}

#[test]
fn destroying_a_painter_changes_nothing() {
    let mut painter = painter_with_window(24, 300, 200);
    painter.destroy();
    assert_eq!(painter.surface_state().unwrap().width, 300);
    assert_eq!(painter.max_texture_side(), Some(8192));
    assert_eq!(painter.depth_texture_view(), Some(&1));
}
