//! The surface of a window, and how it is set up for painting.

use crate::capture::Extent3d;
use crate::constants::{
    texture_binding, texture_copy_src, texture_render_attachment, TEXTURE_BINDING, TEXTURE_COPY_SRC,
    TEXTURE_RENDER_ATTACHMENT,
};
use vstd::prelude::*;

verus! {

/// The format of the depth texture.
#[derive(Clone, Copy, Debug, PartialEq, Eq)]
pub enum DepthFormat {
    /// One float of 32 bits for each pixel.
    Depth32Float,
}

/// The number of dimensions of a texture.
#[derive(Clone, Copy, Debug, PartialEq, Eq)]
pub enum TextureDimension {
    D2,
}

/// How the alpha channel of a surface is handled when it is put on the screen.
#[derive(Clone, Copy, Debug, PartialEq, Eq)]
pub enum CompositeAlphaMode {
    /// Whichever of the simple modes the surface supports.
    Auto,
}

/// What a surface is configured with.
#[derive(Clone, Copy, Debug, PartialEq, Eq)]
pub struct SurfaceConfiguration {
    /// Bits of `wgpu::TextureUsages`.
    pub usage: u32,
    pub format: wgpu::TextureFormat,
    pub width: u32,
    pub height: u32,
    pub present_mode: wgpu::PresentMode,
    pub alpha_mode: CompositeAlphaMode,
    /// The one format that views of the surface can have.
    pub view_format: wgpu::TextureFormat,
}

/// What the depth texture is created with.
#[derive(Clone, Copy, Debug, PartialEq, Eq)]
pub struct TextureDescriptor {
    pub label: Option<&'static str>,
    pub size: Extent3d,
    pub mip_level_count: u32,
    pub sample_count: u32,
    pub dimension: TextureDimension,
    pub format: DepthFormat,
    /// Bits of `wgpu::TextureUsages`.
    pub usage: u32,
    /// The one format that views of the texture can have.
    pub view_format: DepthFormat,
}

/// A surface, and the size that it is configured for.
#[derive(Debug, PartialEq, Eq)]
pub struct SurfaceState<S> {
    pub surface: S,
    pub width: u32,
    pub height: u32,
}

/// What has to be done when the size of a surface changes.
#[derive(Clone, Copy, Debug, PartialEq, Eq)]
pub struct SurfaceUpdate {
    /// First, configure the surface like this.
    pub configuration: SurfaceConfiguration,
    /// Then, create this texture and a view of it.
    pub depth_texture: Option<TextureDescriptor>,
}

/// A surface of this size that can be painted onto and copied from.
pub open spec fn surface_configuration(
    format: wgpu::TextureFormat,
    present_mode: wgpu::PresentMode,
    width: u32,
    height: u32,
) -> SurfaceConfiguration {
    SurfaceConfiguration {
        usage: TEXTURE_RENDER_ATTACHMENT | TEXTURE_COPY_SRC,
        format,
        width,
        height,
        present_mode,
        alpha_mode: CompositeAlphaMode::Auto,
        view_format: format,
    }
}

/// A depth texture of this size that can be rendered to and bound.
pub open spec fn depth_texture_descriptor(
    format: DepthFormat,
    width: u32,
    height: u32,
) -> TextureDescriptor {
    TextureDescriptor {
        label: Some("egui_depth_texture"),
        size: Extent3d { width, height, depth_or_array_layers: 1 },
        mip_level_count: 1,
        sample_count: 1,
        dimension: TextureDimension::D2,
        format,
        usage: TEXTURE_RENDER_ATTACHMENT | TEXTURE_BINDING,
        view_format: format,
    }
}

impl SurfaceConfiguration {
    /// The configuration of a surface of this size.
    pub fn new(
        format: wgpu::TextureFormat,
        present_mode: wgpu::PresentMode,
        width: u32,
        height: u32,
    ) -> (configuration: Self)
        ensures
            configuration == surface_configuration(format, present_mode, width, height),
    {
        SurfaceConfiguration {
            usage: texture_render_attachment() | texture_copy_src(),
            format,
            width,
            height,
            present_mode,
            alpha_mode: CompositeAlphaMode::Auto,
            view_format: format,
        }
    }
}

impl TextureDescriptor {
    /// The depth texture for a surface of this size.
    pub fn depth(format: DepthFormat, width: u32, height: u32) -> (descriptor: Self)
        ensures
            descriptor == depth_texture_descriptor(format, width, height),
    {
        TextureDescriptor {
            label: Some("egui_depth_texture"),
            size: Extent3d { width, height, depth_or_array_layers: 1 },
            mip_level_count: 1,
            sample_count: 1,
            dimension: TextureDimension::D2,
            format,
            usage: texture_render_attachment() | texture_binding(),
            view_format: format,
        }
    }
}

/// Every configured surface can be painted onto, and what was painted can be copied from it.
pub proof fn law_surface_can_be_captured(
    format: wgpu::TextureFormat,
    present_mode: wgpu::PresentMode,
    width: u32,
    height: u32,
)
    ensures
        ({
            let usage = surface_configuration(format, present_mode, width, height).usage;
            &&& usage & TEXTURE_RENDER_ATTACHMENT == TEXTURE_RENDER_ATTACHMENT
            &&& usage & TEXTURE_COPY_SRC == TEXTURE_COPY_SRC
        }),
{
    assert((16u32 | 1u32) & 16u32 == 16u32) by (bit_vector);
    assert((16u32 | 1u32) & 1u32 == 1u32) by (bit_vector);
}

/// Every depth texture can be an attachment of a render pass, and can be bound.
pub proof fn law_depth_texture_can_be_attached(format: DepthFormat, width: u32, height: u32)
    ensures
        ({
            let usage = depth_texture_descriptor(format, width, height).usage;
            &&& usage & TEXTURE_RENDER_ATTACHMENT == TEXTURE_RENDER_ATTACHMENT
            &&& usage & TEXTURE_BINDING == TEXTURE_BINDING
        }),
{
    assert((16u32 | 4u32) & 16u32 == 16u32) by (bit_vector);
    assert((16u32 | 4u32) & 4u32 == 4u32) by (bit_vector);
}

} // verus!
