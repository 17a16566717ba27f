//! What a painter has once a device was opened, and what it is told beforehand.

use crate::backend::Backend;
use std::sync::Arc;
use vstd::prelude::*;

verus! {

/// How devices are looked for and surfaces are presented.
pub struct WgpuConfiguration<G: Backend> {
    /// Bits of `wgpu::Backends`: the backends that an instance may use.
    pub backends: u32,
    /// What an opened device has to offer.
    pub device_descriptor: G::DeviceDescriptor,
    /// How frames are put on the screen.
    pub present_mode: wgpu::PresentMode,
    /// Which adapter is preferred where there are several.
    pub power_preference: wgpu::PowerPreference,
}

/// An opened device with all that is needed to render with it.
pub struct RenderState<G: Backend> {
    pub device: Arc<G::Device>,
    pub queue: Arc<G::Queue>,
    /// The format of the surfaces that are painted onto.
    pub target_format: wgpu::TextureFormat,
    pub renderer: Arc<G::Renderer>,
    /// The longest side that a texture can have on this device.
    pub max_texture_dimension_2d: u32,
}

/// A device that was opened, and the renderer that was made for it.
pub struct OpenedDevice<G: Backend> {
    pub device: G::Device,
    pub queue: G::Queue,
    pub renderer: G::Renderer,
    /// The longest side that a texture can have on this device.
    pub max_texture_dimension_2d: u32,
}

/// The render state of a device whose renderer was made for surfaces of this format.
pub open spec fn initial_render_state<G: Backend>(
    target_format: wgpu::TextureFormat,
    opened: OpenedDevice<G>,
) -> RenderState<G> {
    RenderState {
        device: Arc::new(opened.device),
        queue: Arc::new(opened.queue),
        target_format,
        renderer: Arc::new(opened.renderer),
        max_texture_dimension_2d: opened.max_texture_dimension_2d,
    }
}

/// Calls `Arc::clone`: the result points to the same value.
#[verifier::external_body]
fn clone_arc<T>(arc: &Arc<T>) -> (copy: Arc<T>)
    ensures
        copy == *arc,
{
    arc.clone()
}

impl<G: Backend> RenderState<G> {
    /// Another handle to the same device, queue and renderer.
    pub fn share(&self) -> (shared: Self)
        ensures
            shared == *self,
    {
        RenderState {
            device: clone_arc(&self.device),
            queue: clone_arc(&self.queue),
            target_format: self.target_format,
            renderer: clone_arc(&self.renderer),
            max_texture_dimension_2d: self.max_texture_dimension_2d,
        }
    }
}

} // verus!
