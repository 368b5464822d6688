use vstd::prelude::*;
use crate::error::PipelineError;

verus! {

/// The fixed format of both ends of a pipeline.
#[derive(Debug, Clone, Copy, PartialEq, Eq, Structural)]
pub struct StreamFormat {
    /// Frames per second.
    pub sample_rate: u32,
    /// Interleaved samples per frame.
    pub channel_count: u16,
}

/// How large a queue a latency target asks for, in samples.
#[derive(Debug, Clone, Copy, PartialEq, Eq, Structural)]
pub struct Sizing {
    /// Room in the queue: twice the pre-fill, as headroom for the two clocks
    /// drifting apart.
    pub capacity: usize,
    /// Silent samples written before the pipeline runs.
    pub prefill: usize,
}

/// `target_ms * sample_rate * channel_count / 1000`, rounded to the nearest
/// integer, halves upward.
pub open spec fn prefill_for(sample_rate: nat, channel_count: nat, target_ms: nat) -> nat {
    (target_ms * sample_rate * channel_count + 500) / 1000
}

/// Whether `compute` accepts the format and latency.
pub open spec fn sizing_ok(format: StreamFormat, target_ms: nat) -> bool {
    &&& format.sample_rate > 0
    &&& format.channel_count > 0
    &&& 2 * prefill_for(format.sample_rate as nat, format.channel_count as nat, target_ms)
        <= usize::MAX
}

/// Sizes the queue for a latency target given in whole milliseconds: the
/// pre-fill is the number of samples that play in that time, and the capacity
/// is twice as many.
pub fn compute(format: StreamFormat, target_latency_ms: u64) -> (r: Result<Sizing, PipelineError>)
    ensures
        sizing_ok(format, target_latency_ms as nat) <==> r is Ok,
        !sizing_ok(format, target_latency_ms as nat) ==> r == Err::<Sizing, PipelineError>(
            PipelineError::InvalidFormat,
        ),
        r matches Ok(s) ==> s.prefill == prefill_for(
            format.sample_rate as nat,
            format.channel_count as nat,
            target_latency_ms as nat,
        ) && s.capacity == 2 * s.prefill,
{
    if format.sample_rate == 0 || format.channel_count == 0 {
        return Err(PipelineError::InvalidFormat);
    }
    let ms = target_latency_ms as u128;
    let rate = format.sample_rate as u128;
    let ch = format.channel_count as u128;
    assert(ms * rate <= 0xffff_ffff_ffff_ffffu128 * 0xffff_ffffu128) by (nonlinear_arith)
        requires
            ms <= 0xffff_ffff_ffff_ffffu128,
            rate <= 0xffff_ffffu128,
    ;
    let mr = ms * rate;
    assert(mr * ch <= 0xffff_ffff_ffff_ffffu128 * 0xffff_ffffu128 * 0xffffu128) by (nonlinear_arith)
        requires
            mr <= 0xffff_ffff_ffff_ffffu128 * 0xffff_ffffu128,
            ch <= 0xffffu128,
    ;
    let total = mr * ch;
    let prefill = (total + 500) / 1000;
    if prefill > (usize::MAX / 2) as u128 {
        return Err(PipelineError::InvalidFormat);
    }
    let prefill = prefill as usize;
    Ok(Sizing { capacity: prefill * 2, prefill })
}

} // verus!
