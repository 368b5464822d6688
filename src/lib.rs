//! A real-time audio passthrough core: a bounded single-producer /
//! single-consumer sample queue, the sizing policy that turns a latency target
//! into a queue capacity and a silence pre-fill, the per-block capture and
//! render steps, and the supervisor state machine around them.
//!
//! Samples are carried as the bit pattern of an IEEE-754 single-precision
//! value (`f32::to_bits`); the all-zero pattern is silence.
mod ring;

pub mod error;
pub mod feed;
pub mod queue;
pub mod sizing;
pub mod supervisor;

pub use error::PipelineError;
pub use feed::{CaptureFeed, RenderSink};
pub use queue::{SampleConsumer, SampleProducer, SampleQueue};
pub use sizing::{compute, Sizing, StreamFormat};
pub use supervisor::{PipelineState, PipelineSupervisor};
