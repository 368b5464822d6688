use vstd::prelude::*;

verus! {

/// Why a pipeline could not be sized, started or attached to its devices.
#[derive(Debug, Clone, Copy, PartialEq, Eq, Structural)]
pub enum PipelineError {
    /// The sizing inputs are unusable: a zero sample rate or channel count,
    /// or a latency whose queue cannot be allocated.
    InvalidFormat,
    /// An input or output device could not be opened.
    DeviceUnavailable,
    /// The two devices do not run at the pipeline's stream format.
    StreamConfigMismatch,
    /// `start` was called while a pipeline is pre-filled or running.
    AlreadyActive,
    /// The devices were attached without a pre-filled pipeline to feed.
    NotPrefilled,
}

} // verus!
