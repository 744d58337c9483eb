//! The render resource lifecycle: a presentable surface and a depth
//! attachment kept consistent across resize events.
//!
//! The GPU-side objects are opaque to verification; what the contracts
//! speak of is the resource model: the size the surface is configured to,
//! the size the depth attachment was created with, the device, queue, base
//! surface configuration and surface format chosen at construction, and
//! whether a frame destination is outstanding.  The invariant maintained is
//! that the two sizes are always equal, nonzero and within the device's
//! texture-dimension limit, and that everything chosen at construction
//! never changes afterwards.
//!
//! A destination image acquired from the surface is handed out as a
//! [`FrameDestination`] and handed back to [`RenderState::present_frame`];
//! while one is outstanding the model marks the frame open, and resizing —
//! which the presentation engine refuses while an acquired image is alive —
//! is required away.

use vstd::prelude::*;

use std::sync::Arc;

use crate::error::{AcquireError, RenderError};
use crate::extent::Extent2;
use crate::gpu;

verus! {

/// The largest width or height, in pixels, of any surface configuration or
/// depth texture the core creates.  The device is requested with the
/// presentation engine's downlevel default limits, whose maximum 2D texture
/// dimension is this; sizes beyond it are rejected before they reach the
/// device.
pub const MAX_TEXTURE_DIMENSION: u32 = 2048;

/// The verified model of the resource state: everything the contracts can
/// say about the surface and the depth attachment.
pub ghost struct ResourceModel {
    /// The size the surface is configured to present at.
    pub surface_size: Extent2,
    /// The size the depth attachment was created with.
    pub depth_size: Extent2,
    /// The surface configuration chosen at construction, whose non-size
    /// fields every later reconfiguration reuses.
    pub base_config: wgpu::SurfaceConfiguration,
    /// The logical device negotiated at construction.
    pub device: wgpu::Device,
    /// The command queue negotiated at construction.
    pub queue: wgpu::Queue,
    /// The surface's texture format, fixed by the base configuration.
    pub surface_format: wgpu::TextureFormat,
    /// Whether a frame destination has been acquired and not yet presented.
    pub frame_open: bool,
}

/// A destination image acquired from the surface for one frame, together
/// with the surface size at the moment of acquisition — the size of the
/// image itself, since the presentation engine hands out images of the
/// configured size.
pub struct FrameDestination {
    texture: wgpu::SurfaceTexture,
    size: Extent2,
}

impl FrameDestination {
    /// The acquired destination image itself.
    pub(crate) fn texture_ref(&self) -> &wgpu::SurfaceTexture {
        &self.texture
    }

    /// The surface size at the moment this destination was acquired.
    pub closed spec fn spec_size(self) -> Extent2 {
        self.size
    }

    /// The surface size at the moment this destination was acquired.
    pub fn size(&self) -> (r: Extent2)
        ensures
            r == self.spec_size(),
    {
        self.size
    }
}

/// Owns the device, queue, surface and depth attachment of one session.
pub struct RenderState {
    surface: wgpu::Surface<'static>,
    surface_config: wgpu::SurfaceConfiguration,
    surface_format: wgpu::TextureFormat,
    depth_texture: wgpu::Texture,
    depth_view: wgpu::TextureView,
    queue: wgpu::Queue,
    device: wgpu::Device,
    surface_size: Extent2,
    depth_size: Extent2,
    frame_open: bool,
}

impl RenderState {
    /// The resource model this state presently realises.
    pub closed spec fn model(self) -> ResourceModel {
        ResourceModel {
            surface_size: self.surface_size,
            depth_size: self.depth_size,
            base_config: self.surface_config,
            device: self.device,
            queue: self.queue,
            surface_format: self.surface_format,
            frame_open: self.frame_open,
        }
    }

    /// The view of the current depth attachment.
    pub closed spec fn spec_depth_view(self) -> wgpu::TextureView {
        self.depth_view
    }

    /// Well-formedness: the surface and the depth attachment agree on a
    /// size that is nonzero and within the device's texture limit.
    pub open spec fn wf(self) -> bool {
        self.model().depth_size == self.model().surface_size
            && self.model().surface_size.spec_fits(MAX_TEXTURE_DIMENSION)
    }

    /// The model that resizing to `size` leaves, whatever model held
    /// before: both sizes become `size`; everything else stays.
    pub open spec fn resized_model(m: ResourceModel, size: Extent2) -> ResourceModel {
        ResourceModel {
            surface_size: size,
            depth_size: size,
            base_config: m.base_config,
            device: m.device,
            queue: m.queue,
            surface_format: m.surface_format,
            frame_open: m.frame_open,
        }
    }

    /// The model after a whole sequence of resizes, applied in order.
    pub open spec fn resized_many(m: ResourceModel, sizes: Seq<Extent2>) -> ResourceModel
        decreases sizes.len(),
    {
        if sizes.len() == 0 {
            m
        } else {
            Self::resized_model(Self::resized_many(m, sizes.drop_last()), sizes.last())
        }
    }

    /// The model with only the frame-open mark changed.
    pub open spec fn frame_marked(m: ResourceModel, open: bool) -> ResourceModel {
        ResourceModel {
            surface_size: m.surface_size,
            depth_size: m.depth_size,
            base_config: m.base_config,
            device: m.device,
            queue: m.queue,
            surface_format: m.surface_format,
            frame_open: open,
        }
    }

    /// Negotiates an adapter and device against the window's surface,
    /// selects and applies a default surface configuration for the window's
    /// current size, and allocates a depth attachment of identical size.
    ///
    /// Fails with `DeviceUnavailable` when no compatible adapter or device
    /// can be obtained, and with `SurfaceConfigUnavailable` when no surface,
    /// or no valid surface configuration, exists for the window — a window
    /// sized zero or beyond the device's texture limit included, since no
    /// presentable configuration exists at such a size.  Those two are the
    /// only errors; acquisition errors cannot arise here.
    pub fn new(window: Arc<winit::window::Window>) -> (r: Result<RenderState, RenderError>)
        ensures
            r matches Ok(state) ==> state.wf() && !state.model().frame_open,
            r matches Err(e) ==> e is DeviceUnavailable || e is SurfaceConfigUnavailable,
    {
        let instance = gpu::instance_new();
        let (width, height) = gpu::window_inner_size(&window);
        let size = Extent2 { width, height };
        if !size.fits(MAX_TEXTURE_DIMENSION) {
            return Err(RenderError::SurfaceConfigUnavailable);
        }
        let surface = match gpu::create_surface(&instance, window) {
            Ok(surface) => surface,
            Err(_) => return Err(RenderError::SurfaceConfigUnavailable),
        };
        let adapter = match gpu::request_adapter(&instance, &surface) {
            Some(adapter) => adapter,
            None => return Err(RenderError::DeviceUnavailable),
        };
        let surface_config = match gpu::surface_default_config(&surface, &adapter, width, height) {
            Some(config) => config,
            None => return Err(RenderError::SurfaceConfigUnavailable),
        };
        let (device, queue) = match gpu::request_device(&adapter) {
            Ok(pair) => pair,
            Err(_) => return Err(RenderError::DeviceUnavailable),
        };
        gpu::configure_surface(&surface, &device, &surface_config, width, height);
        let surface_format = gpu::config_format(&surface_config);
        let depth_texture = gpu::create_depth_texture(
            &device,
            width,
            height,
            gpu::depth_texture_format(),
        );
        let depth_view = gpu::create_texture_view(&depth_texture);
        Ok(RenderState {
            surface,
            surface_config,
            surface_format,
            depth_texture,
            depth_view,
            queue,
            device,
            surface_size: size,
            depth_size: size,
            frame_open: false,
        })
    }

    /// The logical device.
    pub fn device(&self) -> &wgpu::Device {
        &self.device
    }

    /// The command queue.
    pub fn queue(&self) -> &wgpu::Queue {
        &self.queue
    }

    /// The size the surface is configured to.
    pub fn size(&self) -> (r: Extent2)
        ensures
            r == self.model().surface_size,
    {
        self.surface_size
    }

    /// Whether a frame destination is outstanding.
    pub fn frame_open(&self) -> (r: bool)
        ensures
            r == self.model().frame_open,
    {
        self.frame_open
    }

    /// Reconfigures the surface to `size`, reusing the base configuration's
    /// other fields, and replaces the depth attachment with a fresh one of
    /// the same size.  After the call both sizes equal `size` exactly and
    /// nothing else of the model — base configuration, device, queue,
    /// surface format, frame mark — has changed, so the resulting model is
    /// a function of the previous model and `size` alone.
    ///
    /// The size must fit the device's texture limit, and no frame may be
    /// open: the presentation engine refuses a reconfigure while an
    /// acquired destination image is still alive.
    pub fn resize_surface(&mut self, size: Extent2)
        requires
            size.spec_fits(MAX_TEXTURE_DIMENSION),
            !old(self).model().frame_open,
        ensures
            final(self).model() == Self::resized_model(old(self).model(), size),
            final(self).wf(),
            final(self).model().surface_size == size,
            final(self).model().depth_size == size,
    {
        gpu::configure_surface(
            &self.surface,
            &self.device,
            &self.surface_config,
            size.width,
            size.height,
        );
        let depth_texture = gpu::create_depth_texture(
            &self.device,
            size.width,
            size.height,
            gpu::depth_texture_format(),
        );
        let depth_view = gpu::create_texture_view(&depth_texture);
        self.depth_texture = depth_texture;
        self.depth_view = depth_view;
        self.surface_size = size;
        self.depth_size = size;
    }

    /// One attempt to acquire the frame's destination image, with no
    /// recovery.  On success the frame is marked open and the destination
    /// carries the current surface size; on failure nothing changes.
    pub fn surface_texture(&mut self) -> (r: Result<FrameDestination, AcquireError>)
        requires
            !old(self).model().frame_open,
        ensures
            r matches Ok(d) ==> {
                &&& final(self).model() == Self::frame_marked(old(self).model(), true)
                &&& d.spec_size() == old(self).model().surface_size
            },
            r matches Err(_) ==> final(self).model() == old(self).model(),
    {
        match gpu::acquire_surface_texture(&self.surface) {
            Ok(texture) => {
                let size = self.surface_size;
                self.frame_open = true;
                Ok(FrameDestination { texture, size })
            },
            Err(status) => Err(status),
        }
    }

    /// Acquires the frame's destination image, recovering once: when the
    /// first attempt fails with a recoverable status, the surface is
    /// reconfigured at its current size and acquisition is retried; a
    /// second failure, or an unrecoverable first one, escalates.  On
    /// success the frame is marked open and the destination carries the
    /// surface size, which the recovery preserves; on failure the model is
    /// exactly as before, and the error is always an acquisition error.
    pub fn acquire_frame_destination(&mut self) -> (r: Result<FrameDestination, RenderError>)
        requires
            old(self).wf(),
            !old(self).model().frame_open,
        ensures
            final(self).wf(),
            r matches Ok(d) ==> {
                &&& final(self).model() == Self::frame_marked(old(self).model(), true)
                &&& d.spec_size() == old(self).model().surface_size
            },
            r matches Err(e) ==> {
                &&& final(self).model() == old(self).model()
                &&& e matches RenderError::SurfaceAcquisition(_)
            },
    {
        match gpu::acquire_surface_texture(&self.surface) {
            Ok(texture) => {
                let size = self.surface_size;
                self.frame_open = true;
                Ok(FrameDestination { texture, size })
            },
            Err(status) => {
                if status.recoverable() {
                    let size = self.surface_size;
                    self.resize_surface(size);
                    match gpu::acquire_surface_texture(&self.surface) {
                        Ok(texture) => {
                            self.frame_open = true;
                            Ok(FrameDestination { texture, size })
                        },
                        Err(second) => Err(RenderError::SurfaceAcquisition(second)),
                    }
                } else {
                    Err(RenderError::SurfaceAcquisition(status))
                }
            },
        }
    }

    /// Presents the frame's destination image on its surface and closes
    /// the frame: the model changes only in its frame mark.
    ///
    /// The destination must be the one this state's acquisition handed
    /// out; its size necessarily still matches, since an open frame cannot
    /// be resized.  That the two belong together is beyond the model,
    /// which gives states no identity.
    pub fn present_frame(&mut self, destination: FrameDestination)
        requires
            old(self).model().frame_open,
            destination.spec_size() == old(self).model().surface_size,
        ensures
            final(self).model() == Self::frame_marked(old(self).model(), false),
    {
        let FrameDestination { texture, .. } = destination;
        gpu::present_surface_texture(texture);
        self.frame_open = false;
    }

    /// The texture format of the surface configuration, constant across
    /// resizes.
    pub fn surface_format(&self) -> (r: wgpu::TextureFormat)
        ensures
            r == self.model().surface_format,
    {
        self.surface_format
    }

    /// The current depth attachment's view, valid until the next resize.
    pub fn depth_view(&self) -> (r: &wgpu::TextureView)
        ensures
            *r == self.spec_depth_view(),
    {
        &self.depth_view
    }

    /// The depth attachment's texture format, the same for every session.
    pub fn depth_format(&self) -> wgpu::TextureFormat {
        gpu::depth_texture_format()
    }
}

/// Resizing to one size twice in a row leaves exactly the model that one
/// resize leaves: the model after a resize depends only on the previous
/// model's constant part and the last size.
pub proof fn lemma_resize_idempotent(m: ResourceModel, size: Extent2)
    ensures
        RenderState::resized_model(RenderState::resized_model(m, size), size)
            == RenderState::resized_model(m, size),
{
}

/// After any nonempty sequence of resizes, the surface size and the depth
/// size both equal the size given by the last resize.
pub proof fn lemma_resize_sequence(m: ResourceModel, sizes: Seq<Extent2>)
    requires
        sizes.len() > 0,
    ensures
        RenderState::resized_many(m, sizes).surface_size == sizes.last(),
        RenderState::resized_many(m, sizes).depth_size == sizes.last(),
{
}

} // verus!
