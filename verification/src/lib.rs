//! A minimal real-time frame-rendering core: a resource state machine that
//! keeps a presentable surface and its depth attachment consistent across
//! resizes, a per-frame recording context shared by an ordered chain of
//! render stages, and a frame clock that bounds the frame rate.

pub mod chain;
pub mod clock;
pub mod context;
pub mod error;
pub mod extent;
mod gpu;
pub mod stage;
pub mod state;

pub use chain::RenderChain;
pub use chain::RenderChainBuilder;
pub use clock::FrameClock;
pub use context::CommandList;
pub use context::RenderContext;
pub use error::AcquireError;
pub use error::RenderError;
pub use extent::Extent2;
pub use state::FrameDestination;
pub use state::RenderState;
