//! The stage pipeline: a fixed, ordered list of render stages, built once
//! with a builder and invoked every frame against the per-frame context.
//!
//! Invocation order is registration order: rendering the chain appends to
//! the context's pass log exactly the stages' passes, in the order the
//! stages were registered.

use vstd::prelude::*;

use crate::context::RenderContext;
use crate::stage::{RenderPassModel, Stage};

verus! {

/// Collects stages one at a time, in order, until the chain is sealed.
pub struct RenderChainBuilder {
    stages: Vec<Stage>,
}

/// The sealed, immutable, ordered list of render stages.
pub struct RenderChain {
    stages: Vec<Stage>,
}

impl RenderChainBuilder {
    /// The stages registered so far, in registration order.
    pub closed spec fn spec_stages(self) -> Seq<Stage> {
        self.stages@
    }

    /// Registers one more stage, after all stages registered before it.
    pub fn stage(self, stage: Stage) -> (r: RenderChainBuilder)
        ensures
            r.spec_stages() == self.spec_stages().push(stage),
    {
        let mut stages = self.stages;
        stages.push(stage);
        RenderChainBuilder { stages }
    }

    /// Seals the registered stages into a chain, keeping their order.
    pub fn build(self) -> (r: RenderChain)
        ensures
            r.spec_stages() == self.spec_stages(),
    {
        RenderChain { stages: self.stages }
    }
}

impl RenderChain {
    /// The chain's stages, in registration order.
    pub closed spec fn spec_stages(self) -> Seq<Stage> {
        self.stages@
    }

    /// The passes one invocation of the chain records, in order: one per
    /// stage, in registration order.
    pub open spec fn passes(self) -> Seq<RenderPassModel> {
        self.spec_stages().map_values(|stage: Stage| stage.model())
    }

    /// Starts building a chain with no stages.
    pub fn builder() -> (r: RenderChainBuilder)
        ensures
            r.spec_stages() == Seq::<Stage>::empty(),
    {
        RenderChainBuilder { stages: Vec::new() }
    }

    /// The number of stages.
    pub fn len(&self) -> (r: usize)
        ensures
            r == self.spec_stages().len(),
    {
        self.stages.len()
    }

    /// The stage at position `i` in registration order.
    pub fn stage_at(&self, i: usize) -> (r: &Stage)
        requires
            i < self.spec_stages().len(),
        ensures
            *r == self.spec_stages()[i as int],
    {
        &self.stages[i]
    }

    /// Invokes every stage against `context`, in registration order: the
    /// pass log grows by exactly this chain's passes, in that order.
    pub fn render(&self, context: &mut RenderContext)
        ensures
            final(context).log() == old(context).log() + self.passes(),
    {
        let ghost initial = context.log();
        let mut i: usize = 0;
        while i < self.stages.len()
            invariant
                i <= self.stages@.len(),
                context.log() == initial + self.spec_stages().subrange(0, i as int).map_values(
                    |stage: Stage| stage.model(),
                ),
            decreases self.stages@.len() - i,
        {
            let ghost before = context.log();
            self.stages[i].render(context);
            proof {
                let stages = self.spec_stages();
                let f = |stage: Stage| stage.model();
                assert(stages.subrange(0, i + 1) == stages.subrange(0, i as int).push(
                    stages[i as int],
                ));
                assert(stages.subrange(0, i as int).push(stages[i as int]).map_values(f)
                    =~= stages.subrange(0, i as int).map_values(f).push(f(stages[i as int])));
                assert(context.log() =~= initial + stages.subrange(0, i + 1).map_values(f));
            }
            i += 1;
        }
        proof {
            assert(self.spec_stages().subrange(0, self.spec_stages().len() as int)
                == self.spec_stages());
        }
    }
}

} // verus!
