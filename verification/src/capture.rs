//! Reading the contents of a texture back from the device.

use crate::constants::{buffer_copy_dst, buffer_map_read, BUFFER_COPY_DST, BUFFER_MAP_READ};
use crate::padding::BufferPadding;
use vstd::prelude::*;

verus! {

/// The size of a texture.
#[derive(Clone, Copy, Debug, PartialEq, Eq)]
pub struct Extent3d {
    pub width: u32,
    pub height: u32,
    pub depth_or_array_layers: u32,
}

/// What a buffer is created with.
#[derive(Clone, Copy, Debug, PartialEq, Eq)]
pub struct BufferDescriptor {
    pub label: Option<&'static str>,
    pub size: u64,
    /// Bits of `wgpu::BufferUsages`.
    pub usage: u32,
    pub mapped_at_creation: bool,
}

/// The buffer that a texture is copied to so that its bytes can be read: it can be copied to and
/// mapped for reading, and is not mapped when it is made.
pub open spec fn capture_buffer_descriptor(size: u32) -> BufferDescriptor {
    BufferDescriptor {
        label: None,
        size: size as u64,
        usage: BUFFER_COPY_DST | BUFFER_MAP_READ,
        mapped_at_creation: false,
    }
}

/// A buffer that screen captures are read from, and the number of bytes that it holds.
#[derive(Debug, PartialEq, Eq)]
pub struct CaptureBuffer<B> {
    pub buffer: B,
    pub size: u32,
}

impl<B> CaptureBuffer<B> {
    /// Whether a capture of `size` bytes can use the buffer that is there.
    pub open spec fn reusable(existing: Option<Self>, size: u32) -> bool {
        existing matches Some(captured) && captured.size == size
    }

    /// What the buffer for captures of `size` bytes is created with.
    pub fn descriptor(size: u32) -> (descriptor: BufferDescriptor)
        ensures
            descriptor == capture_buffer_descriptor(size),
    {
        BufferDescriptor {
            label: None,
            size: size as u64,
            usage: buffer_copy_dst() | buffer_map_read(),
            mapped_at_creation: false,
        }
    }

    /// Records a buffer that was created for captures of `size` bytes.
    pub fn new(size: u32, buffer: B) -> (captured: Self)
        ensures
            captured.buffer == buffer,
            captured.size == size,
    {
        CaptureBuffer { buffer, size }
    }

    /// What has to be created before `size` bytes can be captured: nothing if the existing buffer
    /// holds exactly that many bytes, and otherwise a buffer that takes its place.
    pub fn update(existing: &Option<Self>, size: u32) -> (create: Option<BufferDescriptor>)
        ensures
            create == if Self::reusable(*existing, size) {
                None
            } else {
                Some(capture_buffer_descriptor(size))
            },
    {
        match existing {
            Some(captured) => if captured.size == size {
                None
            } else {
                Some(Self::descriptor(size))
            },
            None => Some(Self::descriptor(size)),
        }
    }
}

/// How a texture is copied to the capture buffer.
#[derive(Clone, Copy, Debug, PartialEq, Eq)]
pub struct TextureCopy {
    /// Where in the buffer the first row goes.
    pub offset: u64,
    /// The distance from the start of one row to the start of the next.
    pub bytes_per_row: u32,
    /// The number of rows to the next image; a single image needs none.
    pub rows_per_image: Option<u32>,
    /// How much of the texture is copied.
    pub extent: Extent3d,
}

/// What has happened on the way to a capture.
pub enum CaptureEvent<'a, B> {
    /// The bytes of a texture are wanted.
    Requested,
    /// The buffer that was asked for is there.
    BufferCreated(B),
    /// The texture was copied, the buffer was mapped, and these are all its bytes.
    Mapped(&'a [u8]),
    /// The buffer was unmapped after these pixels were read from it.
    Unmapped(Vec<u8>),
}

/// What has to be done next for a capture.
#[derive(Debug, PartialEq, Eq)]
pub enum CaptureAction {
    /// Create a buffer, and answer with [`CaptureEvent::BufferCreated`].
    CreateBuffer(BufferDescriptor),
    /// Copy the texture to the capture buffer, wait for the copy, map the buffer for reading, and
    /// answer with [`CaptureEvent::Mapped`].
    CopyTexture(TextureCopy),
    /// These are the pixels. Unmap the capture buffer so that it can be copied to again, and answer
    /// with [`CaptureEvent::Unmapped`], which hands the pixels back.
    Unmap(Vec<u8>),
    /// The capture is over, and the capture buffer is not mapped. There are pixels unless the
    /// texture could not be read.
    Finished(Option<Vec<u8>>),
}

/// The copy of a whole texture of this size into rows of `bytes_per_row` bytes.
pub open spec fn whole_texture_copy(extent: Extent3d, bytes_per_row: u32) -> TextureCopy {
    TextureCopy { offset: 0, bytes_per_row, rows_per_image: None, extent }
}

/// The copy of a whole texture of this size.
pub fn texture_copy(extent: Extent3d, padding: &BufferPadding) -> (copy: TextureCopy)
    ensures
        copy == whole_texture_copy(extent, padding.padded_bytes_per_row),
{
    TextureCopy {
        offset: 0,
        bytes_per_row: padding.padded_bytes_per_row,
        rows_per_image: None,
        extent,
    }
}

/// Bytes can be copied into a capture buffer, and it can be mapped for reading.
pub proof fn law_capture_buffer_is_readable(size: u32)
    ensures
        capture_buffer_descriptor(size).usage & BUFFER_COPY_DST == BUFFER_COPY_DST,
        capture_buffer_descriptor(size).usage & BUFFER_MAP_READ == BUFFER_MAP_READ,
{
    assert((8u32 | 1u32) & 8u32 == 8u32) by (bit_vector);
    assert((8u32 | 1u32) & 1u32 == 1u32) by (bit_vector);
}

} // verus!
