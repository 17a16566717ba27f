//! What each event changes in a painter, and what it leaves as it was.

use crate::backend::Backend;
use crate::capture::{CaptureEvent, Extent3d};
use crate::model::{PainterModel, ResizeAction, ResizeEvent, WindowEvent};
use crate::padding::{capture_in_range, law_pixel_position, law_row_lengths};
use vstd::prelude::*;

verus! {

/// Each event of a window changes one thing: the answer about the adapter is the adapter, a device
/// that was opened makes the render state, a window that was cleared has no surface and one that was
/// measured has the surface and the size that were measured, and what was configured has the depth
/// view that was created. All else stays as it was.
pub proof fn law_window_effects<G: Backend>(painter: PainterModel<G>, event: WindowEvent<G>)
    ensures
        ({
            let next = painter.on_window(event).0;
            &&& next.configuration == painter.configuration
            &&& next.msaa_samples == painter.msaa_samples
            &&& next.depth_format == painter.depth_format
            &&& next.instance == painter.instance
            &&& next.screen_capture_buffer == painter.screen_capture_buffer
            &&& next.mapped == painter.mapped
            &&& !(event is AdapterAnswered) ==> next.adapter == painter.adapter
            &&& event matches WindowEvent::AdapterAnswered(adapter) ==> next.adapter == adapter
            &&& !(event is DeviceGranted) ==> next.render_state == painter.render_state
            &&& event matches WindowEvent::DeviceGranted { parameters, opened } ==> {
                &&& next.render_state is Some
                &&& *next.render_state->0.device == opened.device
                &&& *next.render_state->0.queue == opened.queue
                &&& *next.render_state->0.renderer == opened.renderer
                &&& next.render_state->0.target_format == parameters.target_format
                &&& next.render_state->0.max_texture_dimension_2d
                    == opened.max_texture_dimension_2d
            }
            &&& !(event is Cleared) && !(event is Measured) ==> next.surface_state
                == painter.surface_state
            &&& event is Cleared ==> next.surface_state is None
            &&& event matches WindowEvent::Measured { surface, width, height } ==> {
                &&& next.surface_state is Some
                &&& next.surface_state->0.surface == surface
                &&& next.surface_state->0.width == width
                &&& next.surface_state->0.height == height
            }
            &&& !(event is Configured) ==> {
                &&& next.depth_texture_view == painter.depth_texture_view
                &&& next.surface_update == painter.surface_update
            }
            &&& event matches WindowEvent::Configured { update, depth_view } ==> {
                &&& next.depth_texture_view == depth_view
                &&& next.surface_update == Some(update)
            }
        }),
{
}

/// A window can be cleared or given at any time, and a surface for it can be created or refused.
pub proof fn law_window_is_expected<G: Backend>(painter: PainterModel<G>)
    ensures
        painter.expects_window(WindowEvent::Cleared),
        painter.expects_window(WindowEvent::Given),
        painter.expects_window(WindowEvent::SurfaceRefused),
        painter.expects_window(WindowEvent::SurfaceCreated),
{
}

/// A change in the size of the window is of interest exactly if there is a surface. Once it was followed, the surface has the size that it was configured for and the depth
/// view that was created. All else stays as it was.
pub proof fn law_resize_effects<G: Backend>(painter: PainterModel<G>, event: ResizeEvent<G>)
    requires
        painter.expects_resize(event),
    ensures
        event is Resized ==> painter.on_resize(event).0 == painter,
        event matches ResizeEvent::Resized { width, height } ==> {
            &&& painter.surface_state is None ==> painter.on_resize(event).1 is Ignore
            &&& painter.surface_state is Some ==> painter.on_resize(event).1
                == ResizeAction::Update(painter.resized(width, height))
        },
        event matches ResizeEvent::Updated { update, depth_view } ==> {
            let (next, action) = painter.on_resize(event);
            &&& action is Finished
            &&& next.surface_state is Some
            &&& next.surface_state->0.surface == painter.surface_state->0.surface
            &&& next.surface_state->0.width == update.configuration.width
            &&& next.surface_state->0.height == update.configuration.height
            &&& next.depth_texture_view == depth_view
            &&& next.surface_update == Some(update)
            &&& next.configuration == painter.configuration
            &&& next.msaa_samples == painter.msaa_samples
            &&& next.depth_format == painter.depth_format
            &&& next.instance == painter.instance
            &&& next.adapter == painter.adapter
            &&& next.render_state == painter.render_state
            &&& next.screen_capture_buffer == painter.screen_capture_buffer
            &&& next.mapped == painter.mapped
        },
{
}

/// A resize of the window is expected at any time.
pub proof fn law_resize_is_expected<G: Backend>(painter: PainterModel<G>, width: u32, height: u32)
    ensures
        painter.expects_resize(ResizeEvent::Resized { width, height }),
{
}

/// A capture changes nothing but the capture buffer and whether it is mapped: a buffer that was
/// created takes the place of the one before and is recorded with the bytes of all rows, the pixels
/// are known while the buffer is mapped, and forgotten when it is unmapped. `row` is the length of
/// an aligned row.
pub proof fn law_capture_effects<G: Backend>(
    painter: PainterModel<G>,
    extent: Extent3d,
    event: CaptureEvent<G::Buffer>,
    row: int,
)
    requires
        capture_in_range(extent.width as int, extent.height as int),
        row % 256 == 0,
        4 * extent.width <= row < 4 * extent.width + 256,
    ensures
        ({
            let next = painter.on_capture(extent, event);
            &&& next.configuration == painter.configuration
            &&& next.msaa_samples == painter.msaa_samples
            &&& next.depth_format == painter.depth_format
            &&& next.instance == painter.instance
            &&& next.adapter == painter.adapter
            &&& next.render_state == painter.render_state
            &&& next.surface_state == painter.surface_state
            &&& next.surface_update == painter.surface_update
            &&& next.depth_texture_view == painter.depth_texture_view
            &&& !(event is BufferCreated) ==> next.screen_capture_buffer
                == painter.screen_capture_buffer
            &&& event matches CaptureEvent::BufferCreated(buffer) ==> {
                &&& next.screen_capture_buffer is Some
                &&& next.screen_capture_buffer->0.buffer == buffer
                &&& next.screen_capture_buffer->0.size == row * extent.height
            }
            &&& event is Requested || event is BufferCreated ==> next.mapped == painter.mapped
            &&& event is Mapped ==> next.mapped is Some
            &&& event is Unmapped ==> next.mapped is None
        }),
{
    law_row_lengths(extent.width as int, row);
    assert(0 <= row * extent.height) by (nonlinear_arith)
        requires
            0 <= row,
            0 <= extent.height,
    ;
}

/// The pixels of a capture are the bytes of the texture as they are. There are four for each pixel,
/// and channel `c` of the pixel in column `x` of row `y` is the byte that the copy put there. `row`
/// is the length of an aligned row.
pub proof fn law_captured_pixel<G: Backend>(
    painter: PainterModel<G>,
    extent: Extent3d,
    bytes: &[u8],
    row: int,
    x: int,
    y: int,
    c: int,
)
    requires
        row % 256 == 0,
        4 * extent.width <= row < 4 * extent.width + 256,
        bytes@.len() == row * extent.height,
        0 <= x < extent.width,
        0 <= y < extent.height,
        0 <= c < 4,
    ensures
        ({
            let pixels = PainterModel::<G>::captured_pixels(extent, bytes@);
            let pixel = (y * extent.width + x) * 4 + c;
            &&& pixels.len() == 4 * (extent.width * extent.height)
            &&& 0 <= pixel < pixels.len()
            &&& 0 <= y * row + 4 * x + c < bytes@.len()
            &&& pixels[pixel] == bytes@[y * row + 4 * x + c]
            &&& painter.on_capture(extent, CaptureEvent::Mapped(bytes)).mapped == Some(pixels)
        }),
{
    law_row_lengths(extent.width as int, row);
    law_pixel_position(bytes@, extent.width as int, extent.height as int, x, y, c);
}

/// A capture can be asked for whenever none is under way: of any texture without a render state, and
/// of any texture whose bytes can be counted with one. While the buffer is mapped, the answer with
/// the pixels that were read is expected.
pub proof fn law_capture_is_expected<G: Backend>(
    painter: PainterModel<G>,
    extent: Extent3d,
    buffer: G::Buffer,
    pixels: Vec<u8>,
)
    ensures
        painter.mapped is None && painter.render_state is None ==> painter.expects_capture(
            extent,
            CaptureEvent::Requested,
        ),
        painter.mapped is None && capture_in_range(extent.width as int, extent.height as int)
            ==> painter.expects_capture(extent, CaptureEvent::Requested),
        painter.mapped is None && capture_in_range(extent.width as int, extent.height as int)
            && painter.capture_requested(extent) is CreateBuffer ==> painter.expects_capture(
            extent,
            CaptureEvent::BufferCreated(buffer),
        ),
        painter.mapped == Some(pixels@) ==> painter.expects_capture(
            extent,
            CaptureEvent::Unmapped(pixels),
        ),
{
}

/// The longest side of a texture is unknown without a render state, and otherwise the very number
/// that was reported with the device: it is known as soon as the device was opened, and no event
/// changes it afterwards.
pub proof fn law_max_texture_side<G: Backend>(
    painter: PainterModel<G>,
    granted: WindowEvent<G>,
    window: WindowEvent<G>,
    resize: ResizeEvent<G>,
    extent: Extent3d,
    capture: CaptureEvent<G::Buffer>,
)
    ensures
        painter.render_state is None ==> painter.max_texture_side() is None,
        painter.render_state is Some ==> {
            &&& painter.max_texture_side() is Some
            &&& painter.max_texture_side()->0 as int
                == painter.render_state->0.max_texture_dimension_2d as int
        },
        granted matches WindowEvent::DeviceGranted { opened, .. } ==> {
            let next = painter.on_window(granted).0;
            &&& next.max_texture_side() is Some
            &&& next.max_texture_side()->0 as int == opened.max_texture_dimension_2d as int
            &&& next.expects_window(window) ==> next.on_window(window).0.max_texture_side()
                == next.max_texture_side()
        },
        painter.render_state is Some && painter.expects_window(window) ==> painter.on_window(
            window,
        ).0.max_texture_side() == painter.max_texture_side(),
        painter.on_resize(resize).0.max_texture_side() == painter.max_texture_side(),
        painter.on_capture(extent, capture).max_texture_side() == painter.max_texture_side(),
{
}

/// A painter can paint if and only if it has a render state and a surface.
pub proof fn law_can_paint<G: Backend>(painter: PainterModel<G>)
    ensures
        painter.can_paint() <==> painter.render_state is Some && painter.surface_state is Some,
{
}

} // verus!
