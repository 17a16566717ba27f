use egui_wgpu::capture::{texture_copy, CaptureBuffer, Extent3d};
use egui_wgpu::constants::{
    BUFFER_COPY_DST, BUFFER_MAP_READ, ROW_ALIGNMENT, TEXTURE_BINDING, TEXTURE_COPY_SRC,
    TEXTURE_RENDER_ATTACHMENT,
};
use egui_wgpu::padding::BufferPadding;
use egui_wgpu::surface::{
    CompositeAlphaMode, DepthFormat, SurfaceConfiguration, TextureDescriptor, TextureDimension,
};

#[test]
fn capture_buffers_can_be_copied_to_and_read() {
    let descriptor = CaptureBuffer::<u8>::descriptor(5120);
    assert_eq!(descriptor.label, None);
    assert_eq!(descriptor.size, 5120);
    assert!(!descriptor.mapped_at_creation);
    let usage = wgpu::BufferUsages::COPY_DST | wgpu::BufferUsages::MAP_READ;
    assert_eq!(descriptor.usage, usage.bits());
}

#[test]
fn a_capture_buffer_of_the_right_size_is_reused() {
    let existing = Some(CaptureBuffer::new(512, "buffer"));
    assert_eq!(CaptureBuffer::update(&existing, 512), None);
}

#[test]
fn a_capture_buffer_of_another_size_is_replaced() {
    let existing = Some(CaptureBuffer::new(512, "buffer"));
    let smaller = CaptureBuffer::update(&existing, 256);
    assert_eq!(smaller, Some(CaptureBuffer::<u8>::descriptor(256)));
    let larger = CaptureBuffer::update(&existing, 768);
    assert_eq!(larger, Some(CaptureBuffer::<u8>::descriptor(768)));
}

#[test]
fn the_first_capture_buffer_is_created() {
    let create = CaptureBuffer::<&str>::update(&None, 256);
    assert_eq!(create, Some(CaptureBuffer::<u8>::descriptor(256)));
}

#[test]
fn a_texture_is_copied_whole() {
    let extent = Extent3d { width: 65, height: 7, depth_or_array_layers: 1 };
    let copy = texture_copy(extent, &BufferPadding::new(65));
    assert_eq!(copy.offset, 0);
    assert_eq!(copy.bytes_per_row, 512);
    assert_eq!(copy.rows_per_image, None);
    assert_eq!(copy.extent, extent);
}

#[test]
fn surfaces_can_be_painted_onto_and_captured() {
    let configuration = SurfaceConfiguration::new(
        wgpu::TextureFormat::Bgra8Unorm,
        wgpu::PresentMode::Mailbox,
        800,
        600,
    );
    let usage = wgpu::TextureUsages::RENDER_ATTACHMENT | wgpu::TextureUsages::COPY_SRC;
    assert_eq!(configuration.usage, usage.bits());
    assert_eq!(configuration.format, wgpu::TextureFormat::Bgra8Unorm);
    assert_eq!(configuration.view_format, wgpu::TextureFormat::Bgra8Unorm);
    assert_eq!(configuration.present_mode, wgpu::PresentMode::Mailbox);
    assert_eq!(configuration.alpha_mode, CompositeAlphaMode::Auto);
    assert_eq!((configuration.width, configuration.height), (800, 600));
}

#[test]
fn depth_textures_can_be_attached_and_bound() {
    let descriptor = TextureDescriptor::depth(DepthFormat::Depth32Float, 800, 600);
    let usage = wgpu::TextureUsages::RENDER_ATTACHMENT | wgpu::TextureUsages::TEXTURE_BINDING;
    assert_eq!(descriptor.usage, usage.bits());
    assert_eq!(descriptor.label, Some("egui_depth_texture"));
    let size = Extent3d { width: 800, height: 600, depth_or_array_layers: 1 };
    assert_eq!(descriptor.size, size);
    assert_eq!(descriptor.mip_level_count, 1);
    assert_eq!(descriptor.sample_count, 1);
    assert_eq!(descriptor.dimension, TextureDimension::D2);
    assert_eq!(descriptor.format, DepthFormat::Depth32Float);
    assert_eq!(descriptor.view_format, DepthFormat::Depth32Float);
}

#[test]
fn the_bits_of_wgpu_are_as_stated() {
    assert_eq!(ROW_ALIGNMENT, wgpu::COPY_BYTES_PER_ROW_ALIGNMENT);
    assert_eq!(BUFFER_MAP_READ, wgpu::BufferUsages::MAP_READ.bits());
    assert_eq!(BUFFER_COPY_DST, wgpu::BufferUsages::COPY_DST.bits());
    assert_eq!(TEXTURE_COPY_SRC, wgpu::TextureUsages::COPY_SRC.bits());
    assert_eq!(TEXTURE_BINDING, wgpu::TextureUsages::TEXTURE_BINDING.bits());
    assert_eq!(TEXTURE_RENDER_ATTACHMENT, wgpu::TextureUsages::RENDER_ATTACHMENT.bits());
}
