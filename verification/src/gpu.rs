//! The trusted boundary to the graphics stack.
//!
//! Everything the core needs from the graphics library and the window
//! library passes through this module: each outside type the signatures
//! mention is declared here, and each outside call stands in one wrapper
//! whose contract Verus believes.  The wrappers convert between the core's
//! plain values and the outside types, and nothing else; the GPU-side
//! effects of the calls are outside the verified model.

use vstd::prelude::*;

use std::sync::Arc;

use crate::error::AcquireError;
use crate::stage::{ClearStageParams, DepthClear};
use crate::state::MAX_TEXTURE_DIMENSION;

verus! {

#[verifier::external_type_specification]
#[verifier::external_body]
pub struct ExWindow(winit::window::Window);

#[verifier::external_type_specification]
#[verifier::external_body]
pub struct ExInstance(wgpu::Instance);

#[verifier::external_type_specification]
#[verifier::external_body]
pub struct ExSurface<'a>(wgpu::Surface<'a>);

#[verifier::external_type_specification]
#[verifier::external_body]
pub struct ExAdapter(wgpu::Adapter);

#[verifier::external_type_specification]
#[verifier::external_body]
pub struct ExDevice(wgpu::Device);

#[verifier::external_type_specification]
#[verifier::external_body]
pub struct ExQueue(wgpu::Queue);

#[verifier::external_type_specification]
#[verifier::external_body]
#[verifier::reject_recursive_types(V)]
pub struct ExSurfaceConfiguration<V>(wgpu_types::SurfaceConfiguration<V>);

#[verifier::external_type_specification]
#[verifier::external_body]
pub struct ExSurfaceTexture(wgpu::SurfaceTexture);

#[verifier::external_type_specification]
#[verifier::external_body]
pub struct ExTexture(wgpu::Texture);

#[verifier::external_type_specification]
#[verifier::external_body]
pub struct ExTextureView(wgpu::TextureView);

#[verifier::external_type_specification]
#[verifier::external_body]
pub struct ExTextureFormat(wgpu::TextureFormat);

#[verifier::external_type_specification]
#[verifier::external_body]
pub struct ExCommandEncoder(wgpu::CommandEncoder);

#[verifier::external_type_specification]
#[verifier::external_body]
pub struct ExCommandBuffer(wgpu::CommandBuffer);

#[verifier::external_type_specification]
#[verifier::external_body]
pub struct ExColor(wgpu::Color);

#[verifier::external_type_specification]
#[verifier::external_body]
pub struct ExCreateSurfaceError(wgpu::CreateSurfaceError);

#[verifier::external_type_specification]
#[verifier::external_body]
pub struct ExRequestDeviceError(wgpu::RequestDeviceError);

/// Relies on wgpu::Instance::new: creates the graphics instance with the
/// default descriptor.
#[verifier::external_body]
pub(crate) fn instance_new() -> wgpu::Instance {
    wgpu::Instance::new(&Default::default())
}

/// Relies on winit::window::Window::inner_size: the window's current inner
/// size in physical pixels, returned as a plain width and height.
#[verifier::external_body]
pub(crate) fn window_inner_size(window: &winit::window::Window) -> (u32, u32) {
    let size = window.inner_size();
    (size.width, size.height)
}

/// Relies on wgpu::Instance::create_surface: creates a surface targeting the
/// given window, which the surface keeps alive.
#[verifier::external_body]
pub(crate) fn create_surface(
    instance: &wgpu::Instance,
    window: Arc<winit::window::Window>,
) -> Result<wgpu::Surface<'static>, wgpu::CreateSurfaceError> {
    instance.create_surface(window)
}

/// Relies on wgpu::Instance::request_adapter, driven to completion with
/// pollster::block_on: an adapter compatible with the given surface, or
/// None when the machine offers none.
#[verifier::external_body]
pub(crate) fn request_adapter(
    instance: &wgpu::Instance,
    surface: &wgpu::Surface<'static>,
) -> Option<wgpu::Adapter> {
    pollster::block_on(instance.request_adapter(&wgpu::RequestAdapterOptionsBase {
        compatible_surface: Some(surface),
        ..Default::default()
    }))
}

/// Relies on wgpu::Adapter::request_device, driven to completion with
/// pollster::block_on, with wgpu::Limits::downlevel_defaults as the
/// required limits: the logical device and its command queue.  Those
/// limits set the maximum 2D texture dimension to 2048, the bound the
/// sized wrappers below require of every surface configuration and
/// texture, since a size beyond a device limit is a validation error and
/// validation errors end the process by default.
#[verifier::external_body]
pub(crate) fn request_device(
    adapter: &wgpu::Adapter,
) -> Result<(wgpu::Device, wgpu::Queue), wgpu::RequestDeviceError> {
    pollster::block_on(adapter.request_device(
        &wgpu::DeviceDescriptor {
            label: None,
            required_limits: wgpu::Limits::downlevel_defaults(),
            ..Default::default()
        },
        None,
    ))
}

/// Relies on wgpu::Surface::get_default_config: a default configuration for
/// this surface and adapter at the given size, or None when the adapter
/// does not support the surface.
#[verifier::external_body]
pub(crate) fn surface_default_config(
    surface: &wgpu::Surface<'static>,
    adapter: &wgpu::Adapter,
    width: u32,
    height: u32,
) -> Option<wgpu::SurfaceConfiguration> {
    surface.get_default_config(adapter, width, height)
}

/// Relies on wgpu::Surface::configure: applies the base configuration with
/// its size replaced by the given width and height.  configure panics on a
/// zero dimension, and a dimension beyond the device's maximum texture
/// dimension — 2048 under the limits request_device asks for — fails
/// validation fatally, so both are required away; the base configuration's
/// format comes from get_default_config on the same surface and adapter,
/// which configure accepts.  configure also panics while an acquired
/// destination image of this surface is still alive, a state the resource
/// contracts rule out by refusing to resize an open frame.
#[verifier::external_body]
pub(crate) fn configure_surface(
    surface: &wgpu::Surface<'static>,
    device: &wgpu::Device,
    base: &wgpu::SurfaceConfiguration,
    width: u32,
    height: u32,
)
    requires
        0 < width <= MAX_TEXTURE_DIMENSION,
        0 < height <= MAX_TEXTURE_DIMENSION,
{
    surface.configure(device, &wgpu::SurfaceConfiguration { width, height, ..base.clone() });
}

/// Relies on the field SurfaceConfiguration::format: the texture format the
/// configuration selects.
#[verifier::external_body]
pub(crate) fn config_format(config: &wgpu::SurfaceConfiguration) -> wgpu::TextureFormat {
    config.format
}

/// Relies on wgpu::TextureFormat: names the 32-bit floating-point depth
/// format the core gives every depth attachment.
#[verifier::external_body]
pub(crate) fn depth_texture_format() -> wgpu::TextureFormat {
    wgpu::TextureFormat::Depth32Float
}

/// Relies on wgpu::Device::create_texture: a 2D render-attachment texture
/// of the given size and format, one mip level, one sample.  A zero
/// dimension, or one beyond the device's maximum texture dimension — 2048
/// under the limits request_device asks for — fails validation fatally,
/// so both are required away.
#[verifier::external_body]
pub(crate) fn create_depth_texture(
    device: &wgpu::Device,
    width: u32,
    height: u32,
    format: wgpu::TextureFormat,
) -> wgpu::Texture
    requires
        0 < width <= MAX_TEXTURE_DIMENSION,
        0 < height <= MAX_TEXTURE_DIMENSION,
{
    device.create_texture(&wgpu::TextureDescriptor {
        label: None,
        size: wgpu::Extent3d { width, height, depth_or_array_layers: 1 },
        mip_level_count: 1,
        sample_count: 1,
        dimension: wgpu::TextureDimension::D2,
        format,
        usage: wgpu::TextureUsages::RENDER_ATTACHMENT,
        view_formats: &[],
    })
}

/// Relies on wgpu::Texture::create_view: a view of the whole texture with
/// the default descriptor.
#[verifier::external_body]
pub(crate) fn create_texture_view(texture: &wgpu::Texture) -> wgpu::TextureView {
    texture.create_view(&Default::default())
}

/// Relies on wgpu::Surface::get_current_texture: the next destination image,
/// or the surface status that prevented one, each status mapped to its own
/// variant of the core's acquisition error.  The surface must already be
/// configured — on one never configured the call fails fatally; the core
/// configures every surface at construction and at every resize.
#[verifier::external_body]
pub(crate) fn acquire_surface_texture(
    surface: &wgpu::Surface<'static>,
) -> Result<wgpu::SurfaceTexture, AcquireError> {
    match surface.get_current_texture() {
        Ok(texture) => Ok(texture),
        Err(wgpu::SurfaceError::Timeout) => Err(AcquireError::Timeout),
        Err(wgpu::SurfaceError::Outdated) => Err(AcquireError::Outdated),
        Err(wgpu::SurfaceError::Lost) => Err(AcquireError::Lost),
        Err(wgpu::SurfaceError::OutOfMemory) => Err(AcquireError::OutOfMemory),
        Err(wgpu::SurfaceError::Other) => Err(AcquireError::Other),
    }
}

/// Relies on the field SurfaceTexture::texture and wgpu::Texture::create_view:
/// a full-image view of the acquired destination image.
#[verifier::external_body]
pub(crate) fn surface_texture_view(surface_texture: &wgpu::SurfaceTexture) -> wgpu::TextureView {
    surface_texture.texture.create_view(&Default::default())
}

/// Relies on wgpu::Device::create_command_encoder: a fresh command encoder
/// with the default descriptor.
#[verifier::external_body]
pub(crate) fn create_command_encoder(device: &wgpu::Device) -> wgpu::CommandEncoder {
    device.create_command_encoder(&Default::default())
}

/// Relies on wgpu::CommandEncoder::begin_render_pass: records one render
/// pass that clears the surface view to the given color and the depth view
/// to the given depth, stores both, and draws nothing.
#[verifier::external_body]
pub(crate) fn record_clear_pass(
    encoder: &mut wgpu::CommandEncoder,
    surface_view: &wgpu::TextureView,
    depth_view: &wgpu::TextureView,
    params: &ClearStageParams,
) {
    let depth_value: u32 = match params.depth { DepthClear::Zero => 0, DepthClear::One => 1 };
    let color_ops = wgpu::Operations { load: wgpu::LoadOp::Clear(params.color), store: wgpu::StoreOp::Store };
    let depth_ops = wgpu::Operations { load: wgpu::LoadOp::Clear(depth_value as _), store: wgpu::StoreOp::Store };
    let color = wgpu::RenderPassColorAttachment { view: surface_view, resolve_target: None, ops: color_ops };
    let depth = wgpu::RenderPassDepthStencilAttachment { view: depth_view, depth_ops: Some(depth_ops), stencil_ops: None };
    encoder.begin_render_pass(&wgpu::RenderPassDescriptor {
        color_attachments: &[Some(color)],
        depth_stencil_attachment: Some(depth),
        ..Default::default()
    });
}

/// Relies on wgpu::CommandEncoder::finish: closes the encoder into an
/// immutable, submittable command buffer.
#[verifier::external_body]
pub(crate) fn encoder_finish(encoder: wgpu::CommandEncoder) -> wgpu::CommandBuffer {
    encoder.finish()
}

/// Relies on wgpu::SurfaceTexture::present: schedules the acquired image
/// for presentation on its surface.
#[verifier::external_body]
pub(crate) fn present_surface_texture(surface_texture: wgpu::SurfaceTexture) {
    surface_texture.present();
}

/// Relies on wgpu::Queue::submit: submits the first command buffer followed
/// by the rest, in order, as one submission.
#[verifier::external_body]
pub(crate) fn queue_submit(
    queue: &wgpu::Queue,
    first: wgpu::CommandBuffer,
    rest: Vec<wgpu::CommandBuffer>,
) {
    queue.submit(std::iter::once(first).chain(rest));
}

} // verus!
