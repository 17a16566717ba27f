//! What is asked of the backend: every value of every request, for all painters and all sizes.

use crate::backend::Backend;
use crate::capture::{
    capture_buffer_descriptor, whole_texture_copy, CaptureAction, CaptureBuffer, Extent3d,
};
use crate::model::{PainterModel, WgpuError, WindowAction, WindowEvent};
use crate::padding::{capture_in_range, law_row_lengths, padded_row_bytes};
use crate::render_state::{initial_render_state, OpenedDevice};
use crate::surface::{
    depth_texture_descriptor, surface_configuration, CompositeAlphaMode, DepthFormat,
    TextureDimension,
};
use vstd::prelude::*;

verus! {

/// A surface is configured with the size, the format and the present mode that are given, can be
/// drawn to (16) and copied from (1) and nothing else, and its views have its own format.
pub proof fn law_surface_configuration(
    format: wgpu::TextureFormat,
    present_mode: wgpu::PresentMode,
    width: u32,
    height: u32,
)
    ensures
        ({
            let configuration = surface_configuration(format, present_mode, width, height);
            &&& configuration.usage == 17
            &&& configuration.format == format
            &&& configuration.width == width
            &&& configuration.height == height
            &&& configuration.present_mode == present_mode
            &&& configuration.alpha_mode == CompositeAlphaMode::Auto
            &&& configuration.view_format == format
        }),
{
    assert(16u32 | 1u32 == 17u32) by (bit_vector);
}

/// A depth texture has the size that is given, one layer, one mip level and one sample, can be drawn
/// to (16) and bound (4) and nothing else, and its views have its own format.
pub proof fn law_depth_texture(format: DepthFormat, width: u32, height: u32)
    ensures
        ({
            let texture = depth_texture_descriptor(format, width, height);
            &&& texture.label == Some("egui_depth_texture")
            &&& texture.size.width == width
            &&& texture.size.height == height
            &&& texture.size.depth_or_array_layers == 1
            &&& texture.mip_level_count == 1
            &&& texture.sample_count == 1
            &&& texture.dimension == TextureDimension::D2
            &&& texture.format == format
            &&& texture.usage == 20
            &&& texture.view_format == format
        }),
{
    assert(16u32 | 4u32 == 20u32) by (bit_vector);
}

/// A capture buffer has the size that is given, can be copied to (8) and mapped for reading (1) and
/// nothing else, and is not mapped when it is made.
pub proof fn law_capture_buffer(size: u32)
    ensures
        ({
            let descriptor = capture_buffer_descriptor(size);
            &&& descriptor.label == None::<&'static str>
            &&& descriptor.size == size
            &&& descriptor.usage == 9
            &&& !descriptor.mapped_at_creation
        }),
{
    assert(8u32 | 1u32 == 9u32) by (bit_vector);
}

/// A capture can use the buffer that is there if and only if the buffer has exactly its size.
pub proof fn law_reusable<B>(existing: Option<CaptureBuffer<B>>, size: u32)
    ensures
        CaptureBuffer::reusable(existing, size) <==> existing is Some && existing->0.size == size,
{
}

/// A texture is copied whole, to the start of the buffer, as one image.
pub proof fn law_texture_copy(extent: Extent3d, bytes_per_row: u32)
    ensures
        ({
            let copy = whole_texture_copy(extent, bytes_per_row);
            &&& copy.offset == 0
            &&& copy.bytes_per_row == bytes_per_row
            &&& copy.rows_per_image == None::<u32>
            &&& copy.extent == extent
        }),
{
}

/// For a surface to have some size, it is configured for that size with the format of the renderer
/// and the present mode of the painter, and a depth texture of that size and of the depth format of
/// the painter is created if the painter has one, and none otherwise.
pub proof fn law_surface_update<G: Backend>(painter: PainterModel<G>, width: u32, height: u32)
    requires
        painter.render_state is Some,
    ensures
        ({
            let update = painter.resized(width, height);
            let configuration = update.configuration;
            &&& configuration == painter.configured(width, height)
            &&& configuration.usage == 17
            &&& configuration.format == painter.render_state->0.target_format
            &&& configuration.width == width
            &&& configuration.height == height
            &&& configuration.present_mode == painter.configuration.present_mode
            &&& configuration.alpha_mode == CompositeAlphaMode::Auto
            &&& configuration.view_format == painter.render_state->0.target_format
            &&& update.depth_texture is Some <==> painter.depth_format is Some
            &&& update.depth_texture matches Some(texture) ==> {
                &&& texture.label == Some("egui_depth_texture")
                &&& texture.size.width == width
                &&& texture.size.height == height
                &&& texture.size.depth_or_array_layers == 1
                &&& texture.mip_level_count == 1
                &&& texture.sample_count == 1
                &&& texture.dimension == TextureDimension::D2
                &&& painter.depth_format == Some(texture.format)
                &&& texture.usage == 20
                &&& painter.depth_format == Some(texture.view_format)
            }
        }),
{
    law_surface_configuration(
        painter.render_state->0.target_format,
        painter.configuration.present_mode,
        width,
        height,
    );
    if painter.depth_format is Some {
        law_depth_texture(painter.depth_format->0, width, height);
    }
}

/// Whatever happens to the window, an adapter is asked for with the power preference of the
/// configuration and never as a fallback; and a renderer is made with the depth format and the
/// number of samples of the painter.
pub proof fn law_adapter_and_renderer_requests<G: Backend>(
    painter: PainterModel<G>,
    event: WindowEvent<G>,
)
    ensures
        painter.on_window(event).1 matches WindowAction::RequestAdapter(request) ==> {
            &&& !request.force_fallback_adapter
            &&& request.power_preference == painter.configuration.power_preference
        },
        painter.on_window(event).1 matches WindowAction::RequestDevice(parameters) ==> {
            &&& event == WindowEvent::<G>::FormatChosen(parameters.target_format)
            &&& parameters.depth_format == painter.depth_format
            &&& parameters.msaa_samples == painter.msaa_samples
        },
{
}

/// What comes after each event of a window. A new surface needs an adapter first, if there is none,
/// then a format and a device, if there is no render state, and then the size of its window. A
/// surface that is refused, an adapter that is not found and a device that is refused end the
/// exchange, each with its error; only a window that was cleared or configured ends it well.
pub proof fn law_window_actions<G: Backend>(painter: PainterModel<G>, event: WindowEvent<G>)
    ensures
        ({
            let action = painter.on_window(event).1;
            &&& event is Cleared ==> action == WindowAction::Finished(Ok(()))
            &&& event is Given ==> action is CreateSurface
            &&& event is SurfaceRefused ==> action == WindowAction::Finished(
                Err(WgpuError::CreateSurface),
            )
            &&& event is SurfaceCreated && painter.adapter is None ==> action is RequestAdapter
            &&& event is SurfaceCreated && painter.adapter is Some && painter.render_state is None
                ==> action is ChooseFormat
            &&& event is SurfaceCreated && painter.adapter is Some && painter.render_state is Some
                ==> action is Measure
            &&& event matches WindowEvent::AdapterAnswered(adapter) ==> {
                &&& painter.render_state is Some ==> action is Measure
                &&& painter.render_state is None && adapter is Some ==> action is ChooseFormat
                &&& painter.render_state is None && adapter is None ==> action
                    == WindowAction::Finished(Err(WgpuError::RequestDevice))
            }
            &&& event is FormatChosen ==> action is RequestDevice
            &&& event is DeviceRefused ==> action == WindowAction::Finished(
                Err(WgpuError::RequestDevice),
            )
            &&& event is DeviceGranted ==> action is Measure
            &&& event matches WindowEvent::Measured { width, height, .. } ==> action
                == WindowAction::Configure(painter.resized(width, height))
            &&& event is Configured ==> action == WindowAction::Finished(Ok(()))
            &&& action == WindowAction::Finished(Ok(())) ==> event is Cleared || event is Configured
        }),
{
}

/// A render state holds the very device, queue, renderer and limit that were opened, and the format
/// that the renderer was made for.
pub proof fn law_initial_render_state<G: Backend>(
    target_format: wgpu::TextureFormat,
    opened: OpenedDevice<G>,
)
    ensures
        ({
            let render_state = initial_render_state(target_format, opened);
            &&& *render_state.device == opened.device
            &&& *render_state.queue == opened.queue
            &&& render_state.target_format == target_format
            &&& *render_state.renderer == opened.renderer
            &&& render_state.max_texture_dimension_2d == opened.max_texture_dimension_2d
        }),
{
}

/// What is asked for in a capture. `row` is the length of an aligned row, the one multiple of 256
/// that a row of four bytes for each pixel fits in with less than 256 bytes to spare.
///
/// Nothing is captured without a render state. A buffer is created if the one that is there does not
/// hold exactly all rows. Then the texture is copied, unless there is no surface or no adapter, or
/// its rows are empty.
pub proof fn law_capture_requests<G: Backend>(
    painter: PainterModel<G>,
    extent: Extent3d,
    row: int,
)
    requires
        capture_in_range(extent.width as int, extent.height as int),
        row % 256 == 0,
        4 * extent.width <= row < 4 * extent.width + 256,
    ensures
        PainterModel::<G>::capture_size(extent) == row * extent.height,
        ({
            let action = painter.capture_requested(extent);
            let fitting = painter.screen_capture_buffer is Some
                && painter.screen_capture_buffer->0.size == row * extent.height;
            &&& painter.render_state is None ==> action == CaptureAction::Finished(None)
            &&& painter.render_state is Some && fitting ==> action == painter.capture_ready(extent)
            &&& painter.render_state is Some && !fitting ==> {
                &&& action is CreateBuffer
                &&& action->CreateBuffer_0.label == None::<&'static str>
                &&& action->CreateBuffer_0.size == row * extent.height
                &&& action->CreateBuffer_0.usage == 9
                &&& !action->CreateBuffer_0.mapped_at_creation
            }
        }),
        ({
            let action = painter.capture_ready(extent);
            let readable = painter.surface_state is Some && painter.adapter is Some
                && extent.width != 0;
            &&& !readable ==> action == CaptureAction::Finished(None)
            &&& readable ==> {
                &&& action is CopyTexture
                &&& action->CopyTexture_0.offset == 0
                &&& action->CopyTexture_0.bytes_per_row == row
                &&& action->CopyTexture_0.rows_per_image == None::<u32>
                &&& action->CopyTexture_0.extent == extent
            }
        }),
{
    law_row_lengths(extent.width as int, row);
    law_capture_buffer(PainterModel::<G>::capture_size(extent));
    law_texture_copy(extent, padded_row_bytes(extent.width as int) as u32);
    assert(0 <= row * extent.height) by (nonlinear_arith)
        requires
            0 <= row,
            0 <= extent.height,
    ;
}

} // verus!
