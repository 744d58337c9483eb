//! The per-frame recording context: one command encoder, one destination
//! view and the frame's borrowed depth view, shared by every stage and the
//! overlay collaborator, then consumed exactly once into a command list.
//!
//! Consuming the context (`finish` or `submit`) takes it by value, so a
//! second finish is a compile-time error, and the borrow of the resource
//! state keeps the resources from being resized while the frame is open.
//! Opening a context requires the destination's size to equal the surface
//! size of the resources it draws on, so the color and depth attachments
//! of every recorded pass agree in extent.
//!
//! The context carries a ghost log of the passes the verified core has
//! recorded into the encoder, in recording order, and the finished command
//! list carries that log out; contributors that reach the encoder through
//! `encoder` or `encoder_with_views` append outside this log.

use vstd::prelude::*;

use crate::gpu;
use crate::stage::{ClearStageParams, RenderPassModel};
use crate::state::{FrameDestination, RenderState};

verus! {

/// One frame's finished, immutable, submittable command list, remembering
/// the passes the verified core recorded into it.
pub struct CommandList {
    buffer: wgpu::CommandBuffer,
    log: Ghost<Seq<RenderPassModel>>,
}

impl CommandList {
    /// The passes the verified core recorded into this list, in order.
    pub closed spec fn log(self) -> Seq<RenderPassModel> {
        self.log@
    }

    /// The underlying command buffer, for submission by hand.
    pub fn into_buffer(self) -> wgpu::CommandBuffer {
        let CommandList { buffer, .. } = self;
        buffer
    }
}

/// Bundles one frame's command recording.
pub struct RenderContext<'a> {
    state: &'a RenderState,
    surface_view: wgpu::TextureView,
    encoder: wgpu::CommandEncoder,
    log: Ghost<Seq<RenderPassModel>>,
}

impl<'a> RenderContext<'a> {
    /// The passes the verified core has recorded this frame, in order.
    pub closed spec fn log(self) -> Seq<RenderPassModel> {
        self.log@
    }

    /// Opens a frame: a fresh command encoder, the full-image view of the
    /// acquired destination, and the current depth view borrowed from
    /// `state`.  No passes are recorded yet.
    ///
    /// The destination must have been acquired at the surface size `state`
    /// presently holds, and the depth attachment matches that size by
    /// well-formedness, so every pass recorded here targets attachments of
    /// one extent.
    pub fn new(state: &'a RenderState, destination: &FrameDestination) -> (r: RenderContext<'a>)
        requires
            state.wf(),
            destination.spec_size() == state.model().surface_size,
        ensures
            r.log() == Seq::<RenderPassModel>::empty(),
    {
        let encoder = gpu::create_command_encoder(state.device());
        let surface_view = gpu::surface_texture_view(destination.texture_ref());
        RenderContext { state, surface_view, encoder, log: Ghost(Seq::empty()) }
    }

    /// The logical device of the owning resource state.
    pub fn device(&self) -> &wgpu::Device {
        self.state.device()
    }

    /// The command queue of the owning resource state.
    pub fn queue(&self) -> &wgpu::Queue {
        self.state.queue()
    }

    /// The destination view of the presentable surface, for this frame.
    pub fn surface_view(&self) -> &wgpu::TextureView {
        &self.surface_view
    }

    /// The current depth attachment's view.
    pub fn depth_view(&self) -> &wgpu::TextureView {
        self.state.depth_view()
    }

    /// Mutable access to the shared command encoder, for a contributor —
    /// the overlay collaborator — that records its own passes.  What it
    /// records is appended after the passes recorded so far and stands
    /// outside the pass log.
    pub fn encoder(&mut self) -> (r: &mut wgpu::CommandEncoder)
        ensures
            final(self).log() == old(self).log(),
    {
        &mut self.encoder
    }

    /// The shared command encoder together with the frame's surface view
    /// and depth view, for a contributor that records a pass targeting
    /// them.  What it records stands outside the pass log.
    pub fn encoder_with_views(&mut self) -> (r: (
        &mut wgpu::CommandEncoder,
        &wgpu::TextureView,
        &wgpu::TextureView,
    ))
        ensures
            final(self).log() == old(self).log(),
    {
        (&mut self.encoder, &self.surface_view, self.state.depth_view())
    }

    /// Records one clear pass with the given parameters: the next entry of
    /// the pass log.
    pub fn record_clear(&mut self, params: &ClearStageParams)
        ensures
            final(self).log() == old(self).log().push(RenderPassModel::Clear(*params)),
    {
        gpu::record_clear_pass(
            &mut self.encoder,
            &self.surface_view,
            self.state.depth_view(),
            params,
        );
        self.log = Ghost(self.log@.push(RenderPassModel::Clear(*params)));
    }

    /// Closes the recording into a command list holding exactly the passes
    /// of this context's log, in order, consuming the context: the frame's
    /// unique terminal transition.
    pub fn finish(self) -> (r: CommandList)
        ensures
            r.log() == self.log(),
    {
        let RenderContext { encoder, log, .. } = self;
        CommandList { buffer: gpu::encoder_finish(encoder), log }
    }

    /// Finishes the context and submits its command list, followed by the
    /// extra command buffers of the overlay collaborator, as one submission
    /// with the frame's own commands first.
    pub fn submit(self, extra: Vec<wgpu::CommandBuffer>) {
        let state = self.state;
        let list = self.finish();
        gpu::queue_submit(state.queue(), list.into_buffer(), extra);
    }
}

} // verus!
