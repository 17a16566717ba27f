//! What a painter is, and what each event does to it.
//!
//! The work that only the graphics backend can do is named by actions. Whoever drives a painter
//! does that work and answers with an event. What is stated here is, for each event, what becomes
//! of the painter and which action comes next.

use crate::backend::Backend;
use crate::capture::{
    capture_buffer_descriptor, whole_texture_copy, CaptureAction, CaptureBuffer, CaptureEvent,
    Extent3d,
};
use crate::constants::ROW_ALIGNMENT;
use crate::frame::{frame_outcome, frame_result, FramePlan};
use crate::padding::{capture_in_range, padded_row_bytes, row_bytes, unpadded_rows};
use crate::render_state::{
    initial_render_state, OpenedDevice, RenderState, WgpuConfiguration,
};
use crate::surface::{
    depth_texture_descriptor, surface_configuration, DepthFormat, SurfaceConfiguration,
    SurfaceState, SurfaceUpdate, TextureDescriptor,
};
use vstd::prelude::*;

verus! {

/// Why a window cannot be painted to.
#[derive(Clone, Copy, Debug, PartialEq, Eq)]
pub enum WgpuError {
    /// No surface could be created for the window.
    CreateSurface,
    /// There is no adapter for the surface, or its device could not be opened.
    RequestDevice,
}

/// What to do about a surface that gave no frame.
#[derive(Clone, Copy, Debug, PartialEq, Eq)]
pub enum SurfaceErrorAction {
    /// Do nothing and skip the current frame.
    SkipFrame,
    /// Configure the surface anew, then skip the current frame.
    RecreateSurface,
}

/// What an adapter is asked for with, besides the surface that it has to be compatible with.
#[derive(Clone, Copy, Debug, PartialEq, Eq)]
pub struct AdapterRequest {
    pub power_preference: wgpu::PowerPreference,
    pub force_fallback_adapter: bool,
}

/// What the renderer of a new device is made with, besides the device.
#[derive(Clone, Copy, Debug, PartialEq, Eq)]
pub struct RendererParameters {
    /// The format of the surfaces that are painted onto.
    pub target_format: wgpu::TextureFormat,
    pub depth_format: Option<DepthFormat>,
    pub msaa_samples: u32,
}

/// What has happened to the window of a painter.
pub enum WindowEvent<G: Backend> {
    /// There is no window any more.
    Cleared,
    /// There is a window to paint to.
    Given,
    /// No surface could be created for the window.
    SurfaceRefused,
    /// A surface was created for the window.
    SurfaceCreated,
    /// This is the adapter that was found, if any.
    AdapterAnswered(Option<G::Adapter>),
    /// This is the format in which the surface is painted.
    FormatChosen(wgpu::TextureFormat),
    /// The device could not be opened.
    DeviceRefused,
    /// The device was opened, and its renderer was made with these parameters.
    DeviceGranted { parameters: RendererParameters, opened: OpenedDevice<G> },
    /// The window of this surface has this size.
    Measured { surface: G::Surface, width: u32, height: u32 },
    /// What was asked for was done to the surface, and this is the view of its depth texture.
    Configured { update: SurfaceUpdate, depth_view: Option<G::DepthView> },
}

/// What has to be done next for a window to be painted to.
#[derive(Clone, Copy, Debug, PartialEq, Eq)]
pub enum WindowAction {
    /// Create a surface for the window, and answer with [`WindowEvent::SurfaceCreated`] or
    /// [`WindowEvent::SurfaceRefused`].
    CreateSurface,
    /// Ask for an adapter that is compatible with the surface, and answer with
    /// [`WindowEvent::AdapterAnswered`].
    RequestAdapter(AdapterRequest),
    /// Choose one of the formats that the surface supports with the adapter, and answer with
    /// [`WindowEvent::FormatChosen`].
    ChooseFormat,
    /// Open the device of the adapter, make its renderer with these parameters, and answer with
    /// [`WindowEvent::DeviceGranted`] or [`WindowEvent::DeviceRefused`].
    RequestDevice(RendererParameters),
    /// Ask the window for its size, and answer with [`WindowEvent::Measured`].
    Measure,
    /// Do this to the surface of the painter, and answer with [`WindowEvent::Configured`].
    Configure(SurfaceUpdate),
    /// There is nothing left to do.
    Finished(Result<(), WgpuError>),
}

/// What has happened to the size of the window.
pub enum ResizeEvent<G: Backend> {
    /// The window has this size now.
    Resized { width: u32, height: u32 },
    /// What was asked for was done to the surface, and this is the view of its depth texture.
    Updated { update: SurfaceUpdate, depth_view: Option<G::DepthView> },
}

/// What has to be done next about the size of the window.
#[derive(Clone, Copy, Debug, PartialEq, Eq)]
pub enum ResizeAction {
    /// There is no surface, so the size of the window is of no interest.
    Ignore,
    /// Do this to the surface, and answer with [`ResizeEvent::Updated`].
    Update(SurfaceUpdate),
    /// There is nothing left to do.
    Finished,
}

/// What has happened on the way to a frame.
#[derive(Clone, Copy, Debug, PartialEq, Eq)]
pub enum PaintEvent {
    /// A frame is wanted.
    Requested,
    /// The surface gave no frame, and this is what to do about it.
    FrameRefused(SurfaceErrorAction),
    /// The surface gave a frame. `set` textures have changed, `free` are no longer needed, and
    /// the frame is to be captured if `capture`.
    FrameAcquired { set: usize, free: usize, capture: bool },
}

/// What has to be done next for a frame.
#[derive(Debug, PartialEq, Eq)]
pub enum PaintAction {
    /// Nothing is painted.
    Skip,
    /// Ask the surface for its next frame, and answer with [`PaintEvent::FrameAcquired`] or
    /// [`PaintEvent::FrameRefused`].
    AcquireFrame,
    /// Configure the surface like this. Nothing is painted.
    ConfigureSurface(SurfaceConfiguration),
    /// Take the steps of this plan.
    Draw(FramePlan),
}

impl PaintAction {
    /// What a paint that ends with this action comes to: the bytes that were captured, if a frame
    /// was drawn that has a capture in it, and nothing otherwise.
    pub fn result(&self, captured: Option<Vec<u8>>) -> (out: Option<Vec<u8>>)
        requires
            !(*self is AcquireFrame),
        ensures
            out == match *self {
                PaintAction::Draw(plan) => frame_outcome(plan, captured),
                _ => None,
            },
    {
        match self {
            PaintAction::Draw(plan) => frame_result(plan, captured),
            _ => None,
        }
    }
}

/// All that a painter knows and holds.
pub struct PainterModel<G: Backend> {
    pub configuration: WgpuConfiguration<G>,
    pub msaa_samples: u32,
    pub depth_format: Option<DepthFormat>,
    pub depth_texture_view: Option<G::DepthView>,
    pub screen_capture_buffer: Option<CaptureBuffer<G::Buffer>>,
    pub instance: G::Instance,
    pub adapter: Option<G::Adapter>,
    pub render_state: Option<RenderState<G>>,
    pub surface_state: Option<SurfaceState<G::Surface>>,
    /// What was last done to a surface and its depth texture.
    pub surface_update: Option<SurfaceUpdate>,
    /// While the capture buffer is mapped: the pixels that were read from it.
    pub mapped: Option<Seq<u8>>,
}

impl<G: Backend> PainterModel<G> {
    /// What holds of a painter at any time.
    pub open spec fn wf(self) -> bool {
        // A device comes from an adapter, and no surface is kept without a device to paint with.
        &&& self.render_state is Some ==> self.adapter is Some
        &&& self.surface_state is Some ==> self.render_state is Some
        // Nothing was done to a surface but what was asked for, and the depth texture is the one
        // that was created then.
        &&& self.surface_update matches Some(update) ==> {
            &&& self.render_state is Some
            &&& self.asked_for(update)
        }
        &&& self.depth_texture_view is Some <==> {
            &&& self.surface_update matches Some(update)
            &&& update.depth_texture is Some
        }
        // Captures are stored in whole rows.
        &&& self.screen_capture_buffer matches Some(captured)
            ==> captured.size % ROW_ALIGNMENT == 0
        &&& self.mapped is Some ==> self.screen_capture_buffer is Some
    }

    /// Whether the surface was configured for the size that it is recorded with, and the depth
    /// texture was created for that size. This holds of a painter unless a new surface is waiting
    /// to be configured.
    pub open spec fn settled(self) -> bool {
        self.surface_state matches Some(surface_state) ==> self.surface_update == Some(
            self.resized(surface_state.width, surface_state.height),
        )
    }

    /// What the renderer of a new device is made with if surfaces have this format.
    pub open spec fn renderer_parameters(
        self,
        target_format: wgpu::TextureFormat,
    ) -> RendererParameters {
        RendererParameters {
            target_format,
            depth_format: self.depth_format,
            msaa_samples: self.msaa_samples,
        }
    }

    /// The configuration of a surface of this size.
    pub open spec fn configured(self, width: u32, height: u32) -> SurfaceConfiguration {
        surface_configuration(
            self.render_state->0.target_format,
            self.configuration.present_mode,
            width,
            height,
        )
    }

    /// The depth texture for a surface of this size, if one is wanted.
    pub open spec fn depth_texture(self, width: u32, height: u32) -> Option<TextureDescriptor> {
        match self.depth_format {
            Some(format) => Some(depth_texture_descriptor(format, width, height)),
            None => None,
        }
    }

    /// What has to be done for a surface to have this size.
    pub open spec fn resized(self, width: u32, height: u32) -> SurfaceUpdate {
        SurfaceUpdate {
            configuration: self.configured(width, height),
            depth_texture: self.depth_texture(width, height),
        }
    }

    /// Whether this is what the painter asks for when a surface is to have some size.
    pub open spec fn asked_for(self, update: SurfaceUpdate) -> bool {
        update == self.resized(update.configuration.width, update.configuration.height)
    }

    /// What is missing before a new surface can be painted onto: an adapter, unless there is one
    /// or none was found; a device, unless one was opened already.
    pub open spec fn missing(self, adapter_asked: bool) -> WindowAction {
        if self.adapter is None && !adapter_asked {
            WindowAction::RequestAdapter(
                AdapterRequest {
                    power_preference: self.configuration.power_preference,
                    force_fallback_adapter: false,
                },
            )
        } else if self.render_state is Some {
            WindowAction::Measure
        } else if self.adapter is Some {
            WindowAction::ChooseFormat
        } else {
            WindowAction::Finished(Err(WgpuError::RequestDevice))
        }
    }

    /// Whether an event can come now: an answer comes only where the painter asks for it.
    pub open spec fn expects_window(self, event: WindowEvent<G>) -> bool {
        match event {
            WindowEvent::Cleared => true,
            WindowEvent::Given => true,
            WindowEvent::SurfaceRefused => true,
            WindowEvent::SurfaceCreated => true,
            WindowEvent::AdapterAnswered(_) => self.adapter is None,
            WindowEvent::FormatChosen(_) => self.adapter is Some && self.render_state is None,
            WindowEvent::DeviceRefused => self.adapter is Some && self.render_state is None,
            WindowEvent::DeviceGranted { parameters, .. } => {
                &&& self.adapter is Some
                &&& self.render_state is None
                &&& parameters == self.renderer_parameters(parameters.target_format)
            },
            WindowEvent::Measured { .. } => self.render_state is Some,
            WindowEvent::Configured { update, depth_view } => {
                &&& self.surface_state matches Some(surface_state)
                &&& update == self.resized(surface_state.width, surface_state.height)
                &&& depth_view is Some <==> update.depth_texture is Some
            },
        }
    }

    /// What becomes of the painter, and what has to be done next.
    pub open spec fn on_window(self, event: WindowEvent<G>) -> (Self, WindowAction) {
        match event {
            WindowEvent::Cleared => (
                PainterModel { surface_state: None, ..self },
                WindowAction::Finished(Ok(())),
            ),
            WindowEvent::Given => (self, WindowAction::CreateSurface),
            WindowEvent::SurfaceRefused => (
                self,
                WindowAction::Finished(Err(WgpuError::CreateSurface)),
            ),
            WindowEvent::SurfaceCreated => (self, self.missing(false)),
            WindowEvent::AdapterAnswered(adapter) => {
                let next = PainterModel { adapter, ..self };
                (next, next.missing(true))
            },
            WindowEvent::DeviceRefused => (
                self,
                WindowAction::Finished(Err(WgpuError::RequestDevice)),
            ),
            WindowEvent::FormatChosen(target_format) => (
                self,
                WindowAction::RequestDevice(self.renderer_parameters(target_format)),
            ),
            WindowEvent::DeviceGranted { parameters, opened } => (
                PainterModel {
                    render_state: Some(initial_render_state(parameters.target_format, opened)),
                    ..self
                },
                WindowAction::Measure,
            ),
            WindowEvent::Measured { surface, width, height } => (
                PainterModel {
                    surface_state: Some(SurfaceState { surface, width, height }),
                    ..self
                },
                WindowAction::Configure(self.resized(width, height)),
            ),
            WindowEvent::Configured { update, depth_view } => (
                PainterModel {
                    surface_update: Some(update),
                    depth_texture_view: depth_view,
                    ..self
                },
                WindowAction::Finished(Ok(())),
            ),
        }
    }

    /// Whether an event can come now: an answer comes only where the painter asks for it.
    pub open spec fn expects_resize(self, event: ResizeEvent<G>) -> bool {
        match event {
            ResizeEvent::Resized { .. } => true,
            ResizeEvent::Updated { update, depth_view } => {
                &&& self.surface_state is Some
                &&& self.asked_for(update)
                &&& depth_view is Some <==> update.depth_texture is Some
            },
        }
    }

    /// What becomes of the painter, and what has to be done next.
    pub open spec fn on_resize(self, event: ResizeEvent<G>) -> (Self, ResizeAction) {
        match event {
            ResizeEvent::Resized { width, height } => if self.surface_state is Some {
                (self, ResizeAction::Update(self.resized(width, height)))
            } else {
                (self, ResizeAction::Ignore)
            },
            ResizeEvent::Updated { update, depth_view } => (
                PainterModel {
                    surface_state: Some(
                        SurfaceState {
                            surface: self.surface_state->0.surface,
                            width: update.configuration.width,
                            height: update.configuration.height,
                        },
                    ),
                    surface_update: Some(update),
                    depth_texture_view: depth_view,
                    ..self
                },
                ResizeAction::Finished,
            ),
        }
    }

    /// The number of bytes that a copy of a texture of this size takes.
    pub open spec fn capture_size(extent: Extent3d) -> u32 {
        (padded_row_bytes(extent.width as int) * extent.height) as u32
    }

    /// The painter with this buffer for captures of textures of this size.
    pub open spec fn with_capture_buffer(self, extent: Extent3d, buffer: G::Buffer) -> Self {
        PainterModel {
            screen_capture_buffer: Some(
                CaptureBuffer { buffer, size: Self::capture_size(extent) },
            ),
            ..self
        }
    }

    /// What has to be done once there is a buffer for the capture: copy the texture, unless there
    /// is no surface or no adapter, or the rows of the texture are empty.
    pub open spec fn capture_ready(self, extent: Extent3d) -> CaptureAction {
        if self.surface_state is Some && self.adapter is Some && extent.width != 0 {
            CaptureAction::CopyTexture(
                whole_texture_copy(extent, padded_row_bytes(extent.width as int) as u32),
            )
        } else {
            CaptureAction::Finished(None)
        }
    }

    /// What has to be done for a texture of this size to be captured.
    pub open spec fn capture_requested(self, extent: Extent3d) -> CaptureAction {
        if self.render_state is None {
            CaptureAction::Finished(None)
        } else if CaptureBuffer::reusable(self.screen_capture_buffer, Self::capture_size(extent)) {
            self.capture_ready(extent)
        } else {
            CaptureAction::CreateBuffer(capture_buffer_descriptor(Self::capture_size(extent)))
        }
    }

    /// The pixels of a texture of this size that was copied to these bytes.
    pub open spec fn captured_pixels(extent: Extent3d, bytes: Seq<u8>) -> Seq<u8> {
        unpadded_rows(
            bytes,
            padded_row_bytes(extent.width as int),
            row_bytes(extent.width as int),
        )
    }

    /// Whether an event can come now: an answer comes only where the painter asks for it.
    pub open spec fn expects_capture(
        self,
        extent: Extent3d,
        event: CaptureEvent<G::Buffer>,
    ) -> bool {
        let in_range = capture_in_range(extent.width as int, extent.height as int);
        match event {
            CaptureEvent::Requested => {
                &&& self.mapped is None
                &&& self.render_state is Some ==> in_range
            },
            CaptureEvent::BufferCreated(_) => {
                &&& self.mapped is None
                &&& in_range
                &&& self.capture_requested(extent) is CreateBuffer
            },
            CaptureEvent::Mapped(bytes) => {
                &&& self.mapped is None
                &&& in_range
                &&& self.capture_requested(extent) is CopyTexture
                &&& bytes@.len() == Self::capture_size(extent)
            },
            CaptureEvent::Unmapped(pixels) => self.mapped == Some(pixels@),
        }
    }

    /// What becomes of the painter.
    pub open spec fn on_capture(self, extent: Extent3d, event: CaptureEvent<G::Buffer>) -> Self {
        match event {
            CaptureEvent::Requested => self,
            CaptureEvent::BufferCreated(buffer) => self.with_capture_buffer(extent, buffer),
            CaptureEvent::Mapped(bytes) => PainterModel {
                mapped: Some(Self::captured_pixels(extent, bytes@)),
                ..self
            },
            CaptureEvent::Unmapped(_) => PainterModel { mapped: None, ..self },
        }
    }

    /// The longest side that a texture can have, once there is a device.
    pub open spec fn max_texture_side(self) -> Option<usize> {
        match self.render_state {
            Some(render_state) => Some(render_state.max_texture_dimension_2d as usize),
            None => None,
        }
    }

    /// Whether there is anything to paint onto and to paint with.
    pub open spec fn can_paint(self) -> bool {
        self.render_state is Some && self.surface_state is Some
    }
}

} // verus!
