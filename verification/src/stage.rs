//! Render stages: independently configured contributors that append render
//! passes to the per-frame context, in pipeline order.
//!
//! Stage kinds are a closed set of variants, dispatched uniformly: every
//! variant records what it contributes into the frame's pass log, so the
//! order of recorded passes is provably the order of the stages.

use vstd::prelude::*;

use crate::context::RenderContext;

verus! {

/// The value the depth attachment is cleared to.
///
/// The presentation engine accepts clear depths in the unit interval only,
/// and the verified core cannot carry floating-point values, so the two
/// endpoints — the far plane and the near plane of every common depth
/// convention — are offered.
#[derive(Clone, Copy, Debug, PartialEq, Eq, Structural)]
pub enum DepthClear {
    /// Clear the depth attachment to 0.0.
    Zero,
    /// Clear the depth attachment to 1.0.
    One,
}

/// Setup-time parameters of the clear stage: the color the surface is
/// cleared to and the depth the depth attachment is cleared to.
pub struct ClearStageParams {
    /// The clear color, as the presentation engine's color type.  The core
    /// never inspects it; it is handed through to the recorded pass.
    pub color: wgpu::Color,
    /// The clear depth.
    pub depth: DepthClear,
}

/// The built-in clear stage: one render pass that clears the surface view to
/// a configured color and the depth view to a configured depth, stores both,
/// and draws nothing.
pub struct ClearStage {
    params: ClearStageParams,
}

impl ClearStage {
    /// The stage's captured parameters; fixed at setup.
    pub closed spec fn spec_params(self) -> ClearStageParams {
        self.params
    }

    /// Captures the stage's parameters.  They do not change afterwards.
    pub fn setup(params: ClearStageParams) -> (stage: ClearStage)
        ensures
            stage.spec_params() == params,
    {
        ClearStage { params }
    }

    /// The stage's captured parameters.
    pub fn params(&self) -> (r: &ClearStageParams)
        ensures
            *r == self.spec_params(),
    {
        &self.params
    }

    /// Appends this stage's clear pass to the frame's command stream.
    pub fn render(&self, context: &mut RenderContext)
        ensures
            final(context).log() == old(context).log().push(
                RenderPassModel::Clear(self.spec_params()),
            ),
    {
        context.record_clear(&self.params);
    }
}

/// One configured stage of the pipeline.
pub enum Stage {
    /// The built-in clear stage.
    Clear(ClearStage),
}

/// What one recorded render pass did, as the pass log remembers it.
pub enum RenderPassModel {
    /// A pass that cleared the surface and depth views with the given
    /// parameters and drew nothing.
    Clear(ClearStageParams),
}

impl Stage {
    /// The pass this stage records each frame.
    pub open spec fn model(self) -> RenderPassModel {
        match self {
            Stage::Clear(stage) => RenderPassModel::Clear(stage.spec_params()),
        }
    }

    /// Appends this stage's render pass to the frame's command stream.
    pub fn render(&self, context: &mut RenderContext)
        ensures
            final(context).log() == old(context).log().push(self.model()),
    {
        match self {
            Stage::Clear(stage) => stage.render(context),
        }
    }
}

} // verus!
