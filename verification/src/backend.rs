//! What the painter takes from a graphics backend without looking inside.

use vstd::prelude::*;

verus! {

/// The kinds of object that a painter holds on behalf of a graphics backend.
///
/// The painter never looks inside any of them. It decides when each of them is asked for,
/// kept, replaced or dropped.
pub trait Backend: Sized {
    /// The entry point of the backend: makes surfaces and finds adapters.
    type Instance;

    /// A physical device that can be opened.
    type Adapter;

    /// What a device has to offer in order to be opened.
    type DeviceDescriptor;

    /// An opened device.
    type Device;

    /// The queue that commands for the device are submitted to.
    type Queue;

    /// What turns meshes and textures into draw commands.
    type Renderer;

    /// The drawable side of a window.
    type Surface;

    /// A view of the depth texture.
    type DepthView;

    /// A buffer that the device can write to.
    type Buffer;
}

/// `wgpu::TextureFormat`, of which the painter only passes values on.
#[verifier::external_type_specification]
#[verifier::external_body]
pub struct ExTextureFormat(wgpu::TextureFormat);

/// `wgpu::PresentMode`, of which the painter only passes values on.
#[verifier::external_type_specification]
#[verifier::external_body]
pub struct ExPresentMode(wgpu::PresentMode);

/// `wgpu::PowerPreference`, of which the painter only passes values on.
#[verifier::external_type_specification]
#[verifier::external_body]
pub struct ExPowerPreference(wgpu::PowerPreference);

} // verus!
