//! What holds of a painter over several events.

use crate::backend::Backend;
use crate::capture::{CaptureAction, CaptureEvent, Extent3d};
use crate::model::{
    PainterModel, ResizeAction, ResizeEvent, WgpuError, WindowAction, WindowEvent,
};
use crate::padding::{capture_in_range, lemma_capture_size};
use crate::render_state::{initial_render_state, OpenedDevice};
use crate::surface::SurfaceState;
use vstd::prelude::*;

verus! {

/// How the backend answers while a painter is given a window.
pub struct WindowAnswers<G: Backend> {
    /// The surface, if one could be created.
    pub surface: Option<G::Surface>,
    /// The adapter, if one was found.
    pub adapter: Option<G::Adapter>,
    /// The format that is chosen for the surface.
    pub target_format: wgpu::TextureFormat,
    /// The device, if it could be opened.
    pub opened: Option<OpenedDevice<G>>,
    /// The size of the window.
    pub width: u32,
    pub height: u32,
    /// The view of the depth texture that is created when one is asked for.
    pub depth_view: G::DepthView,
}

impl<G: Backend> WindowAnswers<G> {
    /// The event that answers an action.
    pub open spec fn answer(self, action: WindowAction) -> WindowEvent<G> {
        match action {
            WindowAction::CreateSurface => if self.surface is Some {
                WindowEvent::SurfaceCreated
            } else {
                WindowEvent::SurfaceRefused
            },
            WindowAction::RequestAdapter(_) => WindowEvent::AdapterAnswered(self.adapter),
            WindowAction::ChooseFormat => WindowEvent::FormatChosen(self.target_format),
            WindowAction::RequestDevice(parameters) => match self.opened {
                Some(opened) => WindowEvent::DeviceGranted { parameters, opened },
                None => WindowEvent::DeviceRefused,
            },
            WindowAction::Measure => WindowEvent::Measured {
                surface: self.surface->0,
                width: self.width,
                height: self.height,
            },
            WindowAction::Configure(update) => WindowEvent::Configured {
                update,
                depth_view: if update.depth_texture is Some { Some(self.depth_view) } else { None },
            },
            WindowAction::Finished(_) => WindowEvent::Given,
        }
    }

    /// Whether every event of the exchange that starts with `event` is expected when it comes.
    pub open spec fn accepted(self, painter: PainterModel<G>, event: WindowEvent<G>, most: nat) -> bool
        decreases most,
    {
        let (next, action) = painter.on_window(event);
        &&& painter.expects_window(event)
        &&& 0 < most && !(action is Finished) ==> self.accepted(
            next,
            self.answer(action),
            (most - 1) as nat,
        )
    }

    /// What the exchange that starts with `event` leads to after at most `most` answers.
    pub open spec fn run(
        self,
        painter: PainterModel<G>,
        event: WindowEvent<G>,
        most: nat,
    ) -> (PainterModel<G>, WindowAction)
        decreases most,
    {
        let (next, action) = painter.on_window(event);
        if most == 0 || action is Finished {
            (next, action)
        } else {
            self.run(next, self.answer(action), (most - 1) as nat)
        }
    }

    /// The painter with an adapter, if it had none and one was found.
    pub open spec fn with_adapter(self, painter: PainterModel<G>) -> PainterModel<G> {
        if painter.adapter is None {
            PainterModel { adapter: self.adapter, ..painter }
        } else {
            painter
        }
    }

    /// The painter with a render state, if it had none and a device could be opened.
    pub open spec fn with_render_state(self, painter: PainterModel<G>) -> PainterModel<G> {
        if painter.render_state is None && painter.adapter is Some {
            PainterModel {
                render_state: match self.opened {
                    Some(opened) => Some(initial_render_state(self.target_format, opened)),
                    None => None,
                },
                ..painter
            }
        } else {
            painter
        }
    }

    /// The painter with the surface of the window.
    pub open spec fn with_surface(self, painter: PainterModel<G>) -> PainterModel<G> {
        PainterModel {
            surface_state: Some(
                SurfaceState {
                    surface: self.surface->0,
                    width: self.width,
                    height: self.height,
                },
            ),
            surface_update: Some(painter.resized(self.width, self.height)),
            depth_texture_view: if painter.depth_format is Some {
                Some(self.depth_view)
            } else {
                None
            },
            ..painter
        }
    }

    /// What becomes of a painter that is given a window, and whether it can paint to it.
    pub open spec fn outcome(self, painter: PainterModel<G>) -> (
        PainterModel<G>,
        Result<(), WgpuError>,
    ) {
        let ready = self.with_render_state(self.with_adapter(painter));
        if self.surface is None {
            (painter, Err(WgpuError::CreateSurface))
        } else if ready.render_state is None {
            (ready, Err(WgpuError::RequestDevice))
        } else {
            (self.with_surface(ready), Ok(()))
        }
    }
}

/// Giving a painter a window comes to an end after at most six answers, each of which is expected
/// when it comes, and leads to the outcome that the answers determine. A surface that had its size
/// before has it afterwards, or the new one does.
pub proof fn law_window_run<G: Backend>(painter: PainterModel<G>, answers: WindowAnswers<G>)
    requires
        painter.wf(),
    ensures
        answers.accepted(painter, WindowEvent::Given, 6),
        answers.run(painter, WindowEvent::Given, 6) == (
            answers.outcome(painter).0,
            WindowAction::Finished(answers.outcome(painter).1),
        ),
        answers.outcome(painter).0.wf(),
        painter.settled() ==> answers.outcome(painter).0.settled(),
        answers.outcome(painter).1 is Ok ==> answers.outcome(painter).0.settled(),
{
    reveal_with_fuel(WindowAnswers::accepted, 7);
    reveal_with_fuel(WindowAnswers::run, 7);
}

/// The renderer of a new device is made for the very format that is recorded with it and that all
/// surfaces are configured with, and with the depth format and the number of samples of the
/// painter.
pub proof fn law_renderer_has_the_target_format<G: Backend>(
    painter: PainterModel<G>,
    target_format: wgpu::TextureFormat,
    opened: OpenedDevice<G>,
    width: u32,
    height: u32,
)
    requires
        painter.wf(),
        painter.expects_window(WindowEvent::FormatChosen(target_format)),
    ensures
        ({
            let (asked, action) = painter.on_window(WindowEvent::FormatChosen(target_format));
            let parameters = action->RequestDevice_0;
            let answer = WindowEvent::DeviceGranted { parameters, opened };
            let next = asked.on_window(answer).0;
            &&& action is RequestDevice
            &&& parameters.target_format == target_format
            &&& parameters.depth_format == painter.depth_format
            &&& parameters.msaa_samples == painter.msaa_samples
            &&& asked.expects_window(answer)
            &&& *next.render_state->0.renderer == opened.renderer
            &&& next.render_state->0.target_format == parameters.target_format
            &&& next.configured(width, height).format == parameters.target_format
        }),
{
}

/// The surface that a painter had is given up when the window of the new one was measured, before
/// anything is done to the new one.
pub proof fn law_new_surface_replaces_the_old<G: Backend>(
    painter: PainterModel<G>,
    surface: G::Surface,
    width: u32,
    height: u32,
)
    requires
        painter.wf(),
        painter.render_state is Some,
    ensures
        ({
            let (next, action) = painter.on_window(
                WindowEvent::Measured { surface, width, height },
            );
            &&& action is Configure
            &&& next.wf()
            &&& next.surface_state == Some(SurfaceState { surface, width, height })
        }),
{
}

/// A surface that has its size keeps it whatever happens, unless it is replaced; and once the new
/// surface is configured, or the surface is resized, it has its size.
pub proof fn law_surface_settles<G: Backend>(
    painter: PainterModel<G>,
    window: WindowEvent<G>,
    resize: ResizeEvent<G>,
)
    requires
        painter.wf(),
        painter.expects_window(window),
        painter.expects_resize(resize),
    ensures
        painter.settled() && !(window is Measured) ==> painter.on_window(window).0.settled(),
        window is Configured ==> painter.on_window(window).0.settled(),
        painter.settled() ==> painter.on_resize(resize).0.settled(),
        resize is Updated ==> painter.on_resize(resize).0.settled(),
{
}

/// A painter can paint to a window if and only if there is a surface for it and the painter has a
/// render state or can get one, for which it takes an adapter and a device. It keeps the adapter and
/// the render state that it has, and otherwise takes those that it is given. What it was made with
/// and its capture buffer stay as they were.
pub proof fn law_window_outcome<G: Backend>(painter: PainterModel<G>, answers: WindowAnswers<G>)
    requires
        painter.wf(),
    ensures
        ({
            let (next, result) = answers.outcome(painter);
            let has_adapter = painter.adapter is Some || answers.adapter is Some;
            &&& result is Ok <==> answers.surface is Some && (painter.render_state is Some || (
            has_adapter && answers.opened is Some))
            &&& answers.surface is None ==> result == Err::<(), _>(WgpuError::CreateSurface)
                && next == painter
            &&& answers.surface is Some && result is Err ==> result == Err::<(), _>(
                WgpuError::RequestDevice,
            )
            &&& painter.adapter is Some ==> next.adapter == painter.adapter
            &&& painter.adapter is None && answers.surface is Some ==> next.adapter
                == answers.adapter
            &&& painter.render_state is Some ==> next.render_state == painter.render_state
            &&& painter.render_state is None && result is Ok ==> {
                &&& next.render_state is Some
                &&& *next.render_state->0.device == answers.opened->0.device
                &&& *next.render_state->0.queue == answers.opened->0.queue
                &&& *next.render_state->0.renderer == answers.opened->0.renderer
                &&& next.render_state->0.target_format == answers.target_format
                &&& next.render_state->0.max_texture_dimension_2d
                    == answers.opened->0.max_texture_dimension_2d
            }
            &&& result is Ok && painter.depth_format is Some ==> next.depth_texture_view == Some(
                answers.depth_view,
            )
            &&& result is Ok && painter.depth_format is None ==> next.depth_texture_view is None
            &&& next.configuration == painter.configuration
            &&& next.msaa_samples == painter.msaa_samples
            &&& next.depth_format == painter.depth_format
            &&& next.instance == painter.instance
            &&& next.screen_capture_buffer == painter.screen_capture_buffer
            &&& next.mapped == painter.mapped
        }),
{
}

/// A painter that was given a window can paint to it: it has a render state, knows the longest
/// side of a texture, and has a surface of the size of the window. It has a depth texture exactly
/// if one is wanted.
pub proof fn law_window_given<G: Backend>(painter: PainterModel<G>, answers: WindowAnswers<G>)
    requires
        painter.wf(),
        answers.outcome(painter).1 is Ok,
    ensures
        ({
            let next = answers.outcome(painter).0;
            &&& next.can_paint()
            &&& next.max_texture_side() is Some
            &&& Some(next.surface_state->0.surface) == answers.surface
            &&& next.surface_state->0.width == answers.width
            &&& next.surface_state->0.height == answers.height
            &&& next.depth_texture_view is Some <==> next.depth_format is Some
        }),
{
}

/// A painter that could not be given a window keeps the surface, the depth texture and the render
/// state that it had.
pub proof fn law_window_refused<G: Backend>(painter: PainterModel<G>, answers: WindowAnswers<G>)
    requires
        painter.wf(),
        answers.outcome(painter).1 is Err,
    ensures
        answers.outcome(painter).0.surface_state == painter.surface_state,
        answers.outcome(painter).0.depth_texture_view == painter.depth_texture_view,
        answers.outcome(painter).0.render_state == painter.render_state,
{
}

/// Once there is a render state, whether a painter can be given a window depends on the surface
/// alone: no adapter and no device are asked for again.
pub proof fn law_device_is_opened_once<G: Backend>(
    painter: PainterModel<G>,
    answers: WindowAnswers<G>,
)
    requires
        painter.wf(),
        painter.render_state is Some,
    ensures
        painter.missing(false) == WindowAction::Measure,
        answers.outcome(painter).1 is Ok <==> answers.surface is Some,
        answers.outcome(painter).0.adapter == painter.adapter,
        answers.outcome(painter).0.render_state == painter.render_state,
{
}

/// Nothing that happens to the window takes away an adapter or a render state or puts another in
/// its place, or changes what the painter was made with.
pub proof fn law_render_state_remains_valid<G: Backend>(
    painter: PainterModel<G>,
    event: WindowEvent<G>,
)
    requires
        painter.wf(),
        painter.expects_window(event),
    ensures
        ({
            let next = painter.on_window(event).0;
            &&& painter.adapter is Some ==> next.adapter == painter.adapter
            &&& painter.render_state is Some ==> next.render_state == painter.render_state
            &&& next.configuration == painter.configuration
            &&& next.msaa_samples == painter.msaa_samples
            &&& next.depth_format == painter.depth_format
            &&& next.instance == painter.instance
            &&& next.screen_capture_buffer == painter.screen_capture_buffer
        }),
{
}

/// A painter without a window paints nothing, ignores resizing and captures nothing, but keeps its
/// render state for the next window.
pub proof fn law_window_cleared<G: Backend>(
    painter: PainterModel<G>,
    width: u32,
    height: u32,
    extent: Extent3d,
)
    requires
        painter.wf(),
    ensures
        ({
            let (next, action) = painter.on_window(WindowEvent::Cleared);
            &&& action == WindowAction::Finished(Ok(()))
            &&& next.wf()
            &&& !next.can_paint()
            &&& next.render_state == painter.render_state
            &&& next.on_resize(ResizeEvent::Resized { width, height }) == (
                next,
                ResizeAction::Ignore,
            )
            &&& next.capture_ready(extent) == CaptureAction::Finished(None)
            &&& !(next.capture_requested(extent) is CopyTexture)
        }),
{
}

/// A painter whose window was cleared can be given a window again: all it takes is a surface, and
/// it paints with the device that it had.
pub proof fn law_pause_and_resume<G: Backend>(
    painter: PainterModel<G>,
    answers: WindowAnswers<G>,
)
    requires
        painter.wf(),
        painter.render_state is Some,
        answers.surface is Some,
    ensures
        ({
            let paused = painter.on_window(WindowEvent::Cleared).0;
            let (resumed, result) = answers.outcome(paused);
            &&& paused.missing(false) == WindowAction::Measure
            &&& result is Ok
            &&& resumed.wf()
            &&& resumed.can_paint()
            &&& resumed.adapter == painter.adapter
            &&& resumed.render_state == painter.render_state
        }),
{
}

/// A painter without a render state knows no longest side, paints nothing and captures nothing.
pub proof fn law_before_first_window<G: Backend>(painter: PainterModel<G>, extent: Extent3d)
    requires
        painter.wf(),
        painter.render_state is None,
    ensures
        painter.max_texture_side() is None,
        !painter.can_paint(),
        painter.capture_requested(extent) == CaptureAction::Finished(None),
{
}

/// The surface and its depth texture are asked for with the same size, which is that of the
/// window, and the answer to that is expected. Afterwards the painter has that size and the new
/// depth texture, and is otherwise as it was.
pub proof fn law_resize<G: Backend>(
    painter: PainterModel<G>,
    width: u32,
    height: u32,
    depth_view: G::DepthView,
)
    requires
        painter.wf(),
        painter.surface_state is Some,
    ensures
        ({
            let (asked, action) = painter.on_resize(ResizeEvent::Resized { width, height });
            let update = action->Update_0;
            let answer = ResizeEvent::Updated {
                update,
                depth_view: if update.depth_texture is Some { Some(depth_view) } else { None },
            };
            let (next, end) = asked.on_resize(answer);
            &&& action is Update
            &&& update.configuration.width == width
            &&& update.configuration.height == height
            &&& update.depth_texture is Some <==> painter.depth_format is Some
            &&& update.depth_texture matches Some(texture) ==> {
                &&& texture.size.width == width
                &&& texture.size.height == height
            }
            &&& asked.expects_resize(answer)
            &&& end == ResizeAction::Finished
            &&& next.wf()
            &&& next.surface_state->0.width == width
            &&& next.surface_state->0.height == height
            &&& next.surface_state->0.surface == painter.surface_state->0.surface
            &&& next.adapter == painter.adapter
            &&& next.render_state == painter.render_state
            &&& next.configuration == painter.configuration
            &&& next.msaa_samples == painter.msaa_samples
            &&& next.depth_format == painter.depth_format
            &&& next.instance == painter.instance
            &&& next.screen_capture_buffer == painter.screen_capture_buffer
            &&& painter.depth_format is Some ==> next.depth_texture_view == Some(depth_view)
        }),
{
}

/// Of two resizes only the last one counts.
pub proof fn law_last_resize_counts<G: Backend>(
    painter: PainterModel<G>,
    first: ResizeEvent<G>,
    last: ResizeEvent<G>,
)
    requires
        painter.wf(),
        first is Updated,
        last is Updated,
        painter.expects_resize(first),
        painter.expects_resize(last),
    ensures
        painter.on_resize(first).0.expects_resize(last),
        painter.on_resize(first).0.on_resize(last) == painter.on_resize(last),
{
}

/// The surface of a painter, unless it waits to be configured, is configured for the size that it is
/// recorded with, and there is a depth texture of that size, which frames are painted with, exactly if there is a depth
/// format.
pub proof fn law_surface_has_its_size<G: Backend>(painter: PainterModel<G>)
    requires
        painter.wf(),
        painter.settled(),
        painter.surface_state is Some,
    ensures
        ({
            let surface_state = painter.surface_state->0;
            let update = painter.surface_update->0;
            &&& painter.surface_update is Some
            &&& update.configuration.width == surface_state.width
            &&& update.configuration.height == surface_state.height
            &&& update.depth_texture is Some <==> painter.depth_format is Some
            &&& update.depth_texture is Some <==> painter.depth_texture_view is Some
            &&& update.depth_texture matches Some(texture) ==> {
                &&& texture.size.width == surface_state.width
                &&& texture.size.height == surface_state.height
            }
        }),
{
}

/// A surface that is configured anew because it gave no frame is configured exactly as it was.
pub proof fn law_recreated_surface_is_unchanged<G: Backend>(painter: PainterModel<G>)
    requires
        painter.wf(),
        painter.settled(),
        painter.can_paint(),
    ensures
        painter.configured(painter.surface_state->0.width, painter.surface_state->0.height)
            == painter.surface_update->0.configuration,
{
}

/// The buffer that a capture asked for serves all later captures of the same size, and a capture
/// that takes another number of bytes asks for another buffer.
pub proof fn law_capture_buffer_serves_again<G: Backend>(
    painter: PainterModel<G>,
    extent: Extent3d,
    buffer: G::Buffer,
    other: Extent3d,
)
    requires
        painter.wf(),
        painter.render_state is Some,
        capture_in_range(extent.width as int, extent.height as int),
    ensures
        ({
            let next = painter.with_capture_buffer(extent, buffer);
            &&& next.wf()
            &&& next.capture_requested(extent) == next.capture_ready(extent)
            &&& PainterModel::<G>::capture_size(other) != PainterModel::<G>::capture_size(extent)
                ==> next.capture_requested(other) is CreateBuffer
        }),
{
    lemma_capture_size(extent.width as int, extent.height as int);
}

/// A texture of which every row has pixels is captured whenever there is a window, whether the
/// buffer for it is there or has to be created first. All answers are expected. In the end the
/// painter has a buffer of the right size that is not mapped, is otherwise as it was, and can
/// capture such a texture again without another buffer.
pub proof fn law_capture<G: Backend>(
    painter: PainterModel<G>,
    extent: Extent3d,
    buffer: G::Buffer,
    bytes: &[u8],
    pixels: Vec<u8>,
)
    requires
        painter.wf(),
        painter.can_paint(),
        painter.mapped is None,
        capture_in_range(extent.width as int, extent.height as int),
        extent.width != 0,
        bytes@.len() == PainterModel::<G>::capture_size(extent),
        pixels@ == PainterModel::<G>::captured_pixels(extent, bytes@),
    ensures
        ({
            let created = CaptureEvent::BufferCreated(buffer);
            let ready = if painter.capture_requested(extent) is CreateBuffer {
                painter.on_capture(extent, created)
            } else {
                painter
            };
            let read = ready.on_capture(extent, CaptureEvent::Mapped(bytes));
            let end = read.on_capture(extent, CaptureEvent::Unmapped(pixels));
            &&& painter.expects_capture(extent, CaptureEvent::Requested)
            &&& painter.capture_requested(extent) is CreateBuffer ==> painter.expects_capture(
                extent,
                created,
            )
            &&& ready.capture_ready(extent) is CopyTexture
            &&& ready.expects_capture(extent, CaptureEvent::Mapped(bytes))
            &&& read.expects_capture(extent, CaptureEvent::Unmapped(pixels))
            &&& end.wf()
            &&& end.mapped is None
            &&& end.screen_capture_buffer is Some
            &&& end.screen_capture_buffer->0.size == PainterModel::<G>::capture_size(extent)
            &&& end == PainterModel { screen_capture_buffer: end.screen_capture_buffer, ..painter }
            &&& end.capture_requested(extent) is CopyTexture
        }),
{
    lemma_capture_size(extent.width as int, extent.height as int);
}

/// A buffer that is mapped stays so until it is unmapped, whatever happens to the window; and as
/// long as it is mapped nothing is copied to it, since no capture is expected.
pub proof fn law_mapped_until_unmapped<G: Backend>(
    painter: PainterModel<G>,
    window: WindowEvent<G>,
    resize: ResizeEvent<G>,
    extent: Extent3d,
    capture: CaptureEvent<G::Buffer>,
)
    requires
        painter.wf(),
        painter.mapped is Some,
        painter.expects_window(window),
        painter.expects_resize(resize),
    ensures
        painter.on_window(window).0.mapped == painter.mapped,
        painter.on_resize(resize).0.mapped == painter.mapped,
        painter.expects_capture(extent, capture) ==> {
            &&& capture is Unmapped
            &&& painter.on_capture(extent, capture).mapped is None
        },
{
}

} // verus!
