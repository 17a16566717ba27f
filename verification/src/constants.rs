//! The constants of wgpu that the painter builds on, as plain numbers.

use vstd::prelude::*;

verus! {

/// The alignment, in bytes, of the rows of a buffer that a texture is copied to.
pub const ROW_ALIGNMENT: u32 = 256;

/// The bit of a buffer that can be mapped for reading.
pub const BUFFER_MAP_READ: u32 = 1;

/// The bit of a buffer that can be copied to.
pub const BUFFER_COPY_DST: u32 = 8;

/// The bit of a texture that can be copied from.
pub const TEXTURE_COPY_SRC: u32 = 1;

/// The bit of a texture that can be bound in a bind group.
pub const TEXTURE_BINDING: u32 = 4;

/// The bit of a texture that a render pass can draw to.
pub const TEXTURE_RENDER_ATTACHMENT: u32 = 16;

/// Reads `wgpu::COPY_BYTES_PER_ROW_ALIGNMENT`, which is [`ROW_ALIGNMENT`].
#[verifier::external_body]
pub(crate) fn copy_bytes_per_row_alignment() -> (align: u32)
    ensures
        align == ROW_ALIGNMENT,
{
    wgpu::COPY_BYTES_PER_ROW_ALIGNMENT
}

/// Calls `wgpu::BufferUsages::bits` on `MAP_READ`, whose one bit is [`BUFFER_MAP_READ`].
#[verifier::external_body]
pub(crate) fn buffer_map_read() -> (bits: u32)
    ensures
        bits == BUFFER_MAP_READ,
{
    wgpu::BufferUsages::MAP_READ.bits()
}

/// Calls `wgpu::BufferUsages::bits` on `COPY_DST`, whose one bit is [`BUFFER_COPY_DST`].
#[verifier::external_body]
pub(crate) fn buffer_copy_dst() -> (bits: u32)
    ensures
        bits == BUFFER_COPY_DST,
{
    wgpu::BufferUsages::COPY_DST.bits()
}

/// Calls `wgpu::TextureUsages::bits` on `COPY_SRC`, whose one bit is [`TEXTURE_COPY_SRC`].
#[verifier::external_body]
pub(crate) fn texture_copy_src() -> (bits: u32)
    ensures
        bits == TEXTURE_COPY_SRC,
{
    wgpu::TextureUsages::COPY_SRC.bits()
}

/// Calls `wgpu::TextureUsages::bits` on `TEXTURE_BINDING`, whose one bit is
/// [`TEXTURE_BINDING`].
#[verifier::external_body]
pub(crate) fn texture_binding() -> (bits: u32)
    ensures
        bits == TEXTURE_BINDING,
{
    wgpu::TextureUsages::TEXTURE_BINDING.bits()
}

/// Calls `wgpu::TextureUsages::bits` on `RENDER_ATTACHMENT`, whose one bit is
/// [`TEXTURE_RENDER_ATTACHMENT`].
#[verifier::external_body]
pub(crate) fn texture_render_attachment() -> (bits: u32)
    ensures
        bits == TEXTURE_RENDER_ATTACHMENT,
{
    wgpu::TextureUsages::RENDER_ATTACHMENT.bits()
}

} // verus!
