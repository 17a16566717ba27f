//! The painter: everything that is needed to paint egui onto a window.

use crate::backend::Backend;
use crate::capture::{texture_copy, CaptureAction, CaptureBuffer, CaptureEvent, Extent3d};
use crate::constants::ROW_ALIGNMENT;
use crate::frame::{frame_steps, FramePlan};
use crate::model::{
    AdapterRequest, PaintAction, PaintEvent, PainterModel, RendererParameters, ResizeAction,
    ResizeEvent, SurfaceErrorAction, WgpuError, WindowAction, WindowEvent,
};
use crate::padding::{
    capture_in_range, lemma_capture_size, lemma_copied_rows, padded_row_bytes, row_bytes,
    BufferPadding,
};
use crate::render_state::{
    initial_render_state, OpenedDevice, RenderState, WgpuConfiguration,
};
use crate::surface::{
    DepthFormat, SurfaceConfiguration, SurfaceState, SurfaceUpdate, TextureDescriptor,
};
use std::sync::Arc;
use vstd::prelude::*;

verus! {

/// Everything you need to paint egui with wgpu on winit.
///
/// A painter decides what has to be done, and keeps what came of it. It is driven by events: each
/// of them is answered with an action, which is carried out on the graphics backend `G` and gives
/// rise to the next event.
pub struct Painter<G: Backend> {
    configuration: WgpuConfiguration<G>,
    msaa_samples: u32,
    depth_format: Option<DepthFormat>,
    depth_texture_view: Option<G::DepthView>,
    screen_capture_buffer: Option<CaptureBuffer<G::Buffer>>,
    instance: G::Instance,
    adapter: Option<G::Adapter>,
    render_state: Option<RenderState<G>>,
    surface_state: Option<SurfaceState<G::Surface>>,
    surface_update: Ghost<Option<SurfaceUpdate>>,
    mapped: Ghost<Option<Seq<u8>>>,
}

impl<G: Backend> View for Painter<G> {
    type V = PainterModel<G>;

    closed spec fn view(&self) -> PainterModel<G> {
        PainterModel {
            configuration: self.configuration,
            msaa_samples: self.msaa_samples,
            depth_format: self.depth_format,
            depth_texture_view: self.depth_texture_view,
            screen_capture_buffer: self.screen_capture_buffer,
            instance: self.instance,
            adapter: self.adapter,
            render_state: self.render_state,
            surface_state: self.surface_state,
            surface_update: self.surface_update@,
            mapped: self.mapped@,
        }
    }
}

impl<G: Backend> Painter<G> {
    /// A painter that has an instance of its backend and nothing else.
    ///
    /// The selection of a device and the initialization of the render state and the surface are
    /// deferred until the painter is given its first window by [`Painter::set_window`]. There is
    /// a depth texture if `depth_bits` is not zero.
    pub fn new(
        configuration: WgpuConfiguration<G>,
        msaa_samples: u32,
        depth_bits: u8,
        instance: G::Instance,
    ) -> (painter: Self)
        ensures
            painter@.wf(),
            painter@ == (PainterModel::<G> {
                configuration,
                msaa_samples,
                depth_format: if depth_bits > 0 { Some(DepthFormat::Depth32Float) } else { None },
                depth_texture_view: None,
                screen_capture_buffer: None,
                instance,
                adapter: None,
                render_state: None,
                surface_state: None,
                surface_update: None,
                mapped: None,
            }),
    {
        Painter {
            configuration,
            msaa_samples,
            depth_format: if depth_bits > 0 {
                Some(DepthFormat::Depth32Float)
            } else {
                None
            },
            depth_texture_view: None,
            screen_capture_buffer: None,
            instance,
            adapter: None,
            render_state: None,
            surface_state: None,
            surface_update: Ghost(None),
            mapped: Ghost(None),
        }
    }

    /// The render state, or `None` if it has not been initialized yet.
    pub fn render_state(&self) -> (render_state: Option<RenderState<G>>)
        ensures
            render_state == self@.render_state,
    {
        match &self.render_state {
            Some(render_state) => Some(render_state.share()),
            None => None,
        }
    }

    /// What the renderer of a new device is made with if surfaces have this format.
    pub fn renderer_parameters(
        &self,
        target_format: wgpu::TextureFormat,
    ) -> (parameters: RendererParameters)
        ensures
            parameters == self@.renderer_parameters(target_format),
    {
        RendererParameters {
            target_format,
            depth_format: self.depth_format,
            msaa_samples: self.msaa_samples,
        }
    }

    /// The render state of a device that was opened. It is for surfaces of the format that the
    /// renderer was made for.
    pub fn init_render_state(
        parameters: RendererParameters,
        opened: OpenedDevice<G>,
    ) -> (render_state: RenderState<G>)
        ensures
            render_state == initial_render_state(parameters.target_format, opened),
    {
        RenderState {
            device: Arc::new(opened.device),
            queue: Arc::new(opened.queue),
            target_format: parameters.target_format,
            renderer: Arc::new(opened.renderer),
            max_texture_dimension_2d: opened.max_texture_dimension_2d,
        }
    }

    /// What is missing before a new surface can be painted onto.
    ///
    /// The initialization of the render state is deferred until there is a surface, so that its
    /// format can be taken into account. Once there is a render state it is used for all surfaces
    /// to come.
    pub fn ensure_render_state_for_surface(&self, adapter_asked: bool) -> (action: WindowAction)
        ensures
            action == self@.missing(adapter_asked),
    {
        if self.adapter.is_none() && !adapter_asked {
            return WindowAction::RequestAdapter(
                AdapterRequest {
                    power_preference: self.configuration.power_preference,
                    force_fallback_adapter: false,
                },
            );
        }
        if self.render_state.is_none() {
            match &self.adapter {
                Some(_) => WindowAction::ChooseFormat,
                None => WindowAction::Finished(Err(WgpuError::RequestDevice)),
            }
        } else {
            WindowAction::Measure
        }
    }

    /// The configuration with which the surface gets this size.
    pub fn configure_surface(
        &self,
        width_in_pixels: u32,
        height_in_pixels: u32,
    ) -> (configuration: SurfaceConfiguration)
        requires
            self@.render_state is Some,
            self@.surface_state is Some,
        ensures
            configuration == self@.configured(width_in_pixels, height_in_pixels),
    {
        let format = self.render_state.as_ref().unwrap().target_format;
        SurfaceConfiguration::new(
            format,
            self.configuration.present_mode,
            width_in_pixels,
            height_in_pixels,
        )
    }

    /// What has to be done for the surface to have this size.
    pub fn resize_and_generate_depth_texture_view(
        &self,
        width_in_pixels: u32,
        height_in_pixels: u32,
    ) -> (update: SurfaceUpdate)
        requires
            self@.render_state is Some,
            self@.surface_state is Some,
        ensures
            update == self@.resized(width_in_pixels, height_in_pixels),
    {
        let configuration = self.configure_surface(width_in_pixels, height_in_pixels);
        let depth_texture = match self.depth_format {
            Some(format) => Some(
                TextureDescriptor::depth(format, width_in_pixels, height_in_pixels),
            ),
            None => None,
        };
        SurfaceUpdate { configuration, depth_texture }
    }

    /// Updates (or clears) the window that is painted to.
    ///
    /// A surface is created for the window, and the render state is initialized if needed. This
    /// must be done before [`Painter::paint_and_update_textures`] can paint anything.
    pub fn set_window(&mut self, event: WindowEvent<G>) -> (action: WindowAction)
        requires
            old(self)@.wf(),
            old(self)@.expects_window(event),
        ensures
            final(self)@.wf(),
            (final(self)@, action) == old(self)@.on_window(event),
    {
        match event {
            WindowEvent::Cleared => {
                self.surface_state = None;
                WindowAction::Finished(Ok(()))
            },
            WindowEvent::Given => WindowAction::CreateSurface,
            WindowEvent::SurfaceRefused => WindowAction::Finished(Err(WgpuError::CreateSurface)),
            WindowEvent::SurfaceCreated => self.ensure_render_state_for_surface(false),
            WindowEvent::AdapterAnswered(adapter) => {
                self.adapter = adapter;
                self.ensure_render_state_for_surface(true)
            },
            WindowEvent::DeviceRefused => WindowAction::Finished(Err(WgpuError::RequestDevice)),
            WindowEvent::FormatChosen(target_format) => WindowAction::RequestDevice(
                self.renderer_parameters(target_format),
            ),
            WindowEvent::DeviceGranted { parameters, opened } => {
                self.render_state = Some(Self::init_render_state(parameters, opened));
                WindowAction::Measure
            },
            WindowEvent::Measured { surface, width, height } => {
                self.surface_state = Some(SurfaceState { surface, width, height });
                WindowAction::Configure(self.resize_and_generate_depth_texture_view(width, height))
            },
            WindowEvent::Configured { update, depth_view } => {
                self.depth_texture_view = depth_view;
                self.surface_update = Ghost(Some(update));
                WindowAction::Finished(Ok(()))
            },
        }
    }

    /// The maximum texture dimension supported, if known.
    ///
    /// It is known only after a window was set at least once, since the device and the render
    /// state are initialized once there is a window.
    pub fn max_texture_side(&self) -> (side: Option<usize>)
        ensures
            side == self@.max_texture_side(),
    {
        match &self.render_state {
            Some(render_state) => Some(render_state.max_texture_dimension_2d as usize),
            None => None,
        }
    }

    /// Takes note of a change in the size of the window.
    ///
    /// This is ignored as long as there is no surface.
    pub fn on_window_resized(&mut self, event: ResizeEvent<G>) -> (action: ResizeAction)
        requires
            old(self)@.wf(),
            old(self)@.expects_resize(event),
        ensures
            final(self)@.wf(),
            (final(self)@, action) == old(self)@.on_resize(event),
    {
        match event {
            ResizeEvent::Resized { width, height } => if self.surface_state.is_some() {
                ResizeAction::Update(self.resize_and_generate_depth_texture_view(width, height))
            } else {
                ResizeAction::Ignore
            },
            ResizeEvent::Updated { update, depth_view } => {
                if let Some(surface_state) = &mut self.surface_state {
                    surface_state.width = update.configuration.width;
                    surface_state.height = update.configuration.height;
                }
                self.depth_texture_view = depth_view;
                self.surface_update = Ghost(Some(update));
                ResizeAction::Finished
            },
        }
    }

    /// The lengths of the rows of a texture of this size, and the bytes that a copy of it takes.
    fn capture_layout(extent: Extent3d) -> (layout: (BufferPadding, u32))
        requires
            capture_in_range(extent.width as int, extent.height as int),
        ensures
            layout.0.unpadded_bytes_per_row == row_bytes(extent.width as int),
            layout.0.padded_bytes_per_row == padded_row_bytes(extent.width as int),
            layout.1 == PainterModel::<G>::capture_size(extent),
            layout.1 == padded_row_bytes(extent.width as int) * extent.height,
            layout.1 % ROW_ALIGNMENT == 0,
    {
        proof {
            lemma_capture_size(extent.width as int, extent.height as int);
        }
        let padding = BufferPadding::new(extent.width);
        let size: u32 = padding.padded_bytes_per_row * extent.height;
        (padding, size)
    }

    /// What has to be done once there is a buffer for the capture.
    fn copy_to_capture_buffer(
        &self,
        extent: Extent3d,
        padding: &BufferPadding,
    ) -> (action: CaptureAction)
        requires
            padding.padded_bytes_per_row == padded_row_bytes(extent.width as int),
        ensures
            action == self@.capture_ready(extent),
    {
        if self.surface_state.is_none() || self.adapter.is_none()
            || padding.padded_bytes_per_row == 0 {
            CaptureAction::Finished(None)
        } else {
            CaptureAction::CopyTexture(texture_copy(extent, padding))
        }
    }

    /// Reads a texture of this size, four bytes for each pixel and row after row.
    ///
    /// There is nothing to read without a render state and a surface. Pixels are given only after
    /// the capture buffer was unmapped, so that it is ready for the next copy.
    pub fn read_screen_rgba(
        &mut self,
        extent: Extent3d,
        event: CaptureEvent<G::Buffer>,
    ) -> (action: CaptureAction)
        requires
            old(self)@.wf(),
            old(self)@.expects_capture(extent, event),
        ensures
            final(self)@.wf(),
            final(self)@ == old(self)@.on_capture(extent, event),
            match event {
                CaptureEvent::Requested => action == old(self)@.capture_requested(extent),
                CaptureEvent::BufferCreated(_) => action == final(self)@.capture_ready(extent),
                CaptureEvent::Mapped(bytes) => {
                    &&& action matches CaptureAction::Unmap(pixels)
                    &&& pixels@ == PainterModel::<G>::captured_pixels(extent, bytes@)
                    &&& pixels@.len() == 4 * (extent.width * extent.height)
                },
                CaptureEvent::Unmapped(pixels) => action == CaptureAction::Finished(Some(pixels)),
            },
            action is Finished ==> final(self)@.mapped is None,
            action matches CaptureAction::Finished(Some(_)) ==> event is Unmapped,
    {
        match event {
            CaptureEvent::Requested => {
                if self.render_state.is_none() {
                    return CaptureAction::Finished(None);
                }
                let (padding, size) = Self::capture_layout(extent);
                match CaptureBuffer::update(&self.screen_capture_buffer, size) {
                    Some(descriptor) => CaptureAction::CreateBuffer(descriptor),
                    None => self.copy_to_capture_buffer(extent, &padding),
                }
            },
            CaptureEvent::BufferCreated(buffer) => {
                let (padding, size) = Self::capture_layout(extent);
                self.screen_capture_buffer = Some(CaptureBuffer::new(size, buffer));
                self.copy_to_capture_buffer(extent, &padding)
            },
            CaptureEvent::Mapped(bytes) => {
                let (padding, _) = Self::capture_layout(extent);
                proof {
                    lemma_copied_rows(bytes@, extent.width as int, extent.height as int);
                }
                let pixels: Vec<u8> = padding.remove(bytes);
                self.mapped = Ghost(Some(pixels@));
                CaptureAction::Unmap(pixels)
            },
            CaptureEvent::Unmapped(pixels) => {
                self.mapped = Ghost(None);
                CaptureAction::Finished(Some(pixels))
            },
        }
    }

    /// Paints a frame. Nothing is painted without a render state and a surface.
    pub fn paint_and_update_textures(&self, event: PaintEvent) -> (action: PaintAction)
        requires
            !(event is Requested) ==> self@.can_paint(),
        ensures
            match event {
                PaintEvent::Requested => action == if self@.can_paint() {
                    PaintAction::AcquireFrame
                } else {
                    PaintAction::Skip
                },
                PaintEvent::FrameRefused(SurfaceErrorAction::SkipFrame) => action
                    == PaintAction::Skip,
                PaintEvent::FrameRefused(SurfaceErrorAction::RecreateSurface) => action
                    == PaintAction::ConfigureSurface(
                    self@.configured(
                        self@.surface_state->0.width,
                        self@.surface_state->0.height,
                    ),
                ),
                PaintEvent::FrameAcquired { set, free, capture } => {
                    &&& action matches PaintAction::Draw(plan)
                    &&& plan.width == self@.surface_state->0.width
                    &&& plan.height == self@.surface_state->0.height
                    &&& plan.depth_attachment == (self@.depth_texture_view is Some)
                    &&& plan.steps@ == frame_steps(set as nat, free as nat, capture)
                },
            },
    {
        if self.render_state.is_none() {
            return PaintAction::Skip;
        }
        let surface_state = match &self.surface_state {
            Some(surface_state) => surface_state,
            None => return PaintAction::Skip,
        };
        match event {
            PaintEvent::Requested => PaintAction::AcquireFrame,
            PaintEvent::FrameRefused(SurfaceErrorAction::RecreateSurface) => {
                PaintAction::ConfigureSurface(
                    self.configure_surface(surface_state.width, surface_state.height),
                )
            },
            PaintEvent::FrameRefused(SurfaceErrorAction::SkipFrame) => PaintAction::Skip,
            PaintEvent::FrameAcquired { set, free, capture } => PaintAction::Draw(
                FramePlan::new(
                    surface_state.width,
                    surface_state.height,
                    self.depth_texture_view.is_some(),
                    set,
                    free,
                    capture,
                ),
            ),
        }
    }

    /// What the painter was configured with.
    pub fn configuration(&self) -> (configuration: &WgpuConfiguration<G>)
        ensures
            *configuration == self@.configuration,
    {
        &self.configuration
    }

    /// The instance of the backend.
    pub fn instance(&self) -> (instance: &G::Instance)
        ensures
            *instance == self@.instance,
    {
        &self.instance
    }

    /// The adapter, if one was found.
    pub fn adapter(&self) -> (adapter: Option<&G::Adapter>)
        ensures
            adapter == match self@.adapter {
                Some(adapter) => Some(&adapter),
                None => None,
            },
    {
        self.adapter.as_ref()
    }

    /// The surface and its size, if there is a window.
    pub fn surface_state(&self) -> (surface_state: Option<&SurfaceState<G::Surface>>)
        ensures
            surface_state == match self@.surface_state {
                Some(surface_state) => Some(&surface_state),
                None => None,
            },
    {
        self.surface_state.as_ref()
    }

    /// The view of the depth texture, if there is one.
    pub fn depth_texture_view(&self) -> (view: Option<&G::DepthView>)
        ensures
            view == match self@.depth_texture_view {
                Some(view) => Some(&view),
                None => None,
            },
    {
        self.depth_texture_view.as_ref()
    }

    /// The buffer that captures are read from, if there is one.
    pub fn screen_capture_buffer(&self) -> (captured: Option<&CaptureBuffer<G::Buffer>>)
        ensures
            captured == match self@.screen_capture_buffer {
                Some(captured) => Some(&captured),
                None => None,
            },
    {
        self.screen_capture_buffer.as_ref()
    }

    /// Ends the life of the painter. There is nothing to be done for it.
    pub fn destroy(&mut self)
        ensures
            *final(self) == *old(self),
    {
    }
}

} // verus!
