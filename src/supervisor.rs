use vstd::prelude::*;
use crate::error::PipelineError;
use crate::feed::{rendered, CaptureFeed, RenderSink};
use crate::queue::{push_all, SampleConsumer, SampleProducer, SampleQueue};
use crate::sizing::{compute, prefill_for, sizing_ok, Sizing, StreamFormat};

verus! {

/// Where a pipeline is in its life.
#[derive(Debug, Clone, Copy, PartialEq, Eq, Structural)]
pub enum PipelineState {
    /// No queue yet.
    Idle,
    /// The queue exists and holds its silence pre-fill; no device is attached.
    PreFilled,
    /// Both devices are attached and drive the capture and render steps.
    Running,
    /// The devices are detached and the queue is released.
    Stopped,
}

/// `n` silent samples.
pub open spec fn silence(n: nat) -> Seq<u32> {
    Seq::new(n, |i: int| 0u32)
}

/// Owns the queue of one pipeline and decides its state changes. The device
/// work (opening streams, running their callbacks) is done by its caller,
/// which reports the outcome back.
pub struct PipelineSupervisor {
    state: PipelineState,
    format: StreamFormat,
    queue: Option<SampleQueue>,
    capture: CaptureFeed,
    render: RenderSink,
}

impl PipelineSupervisor {
    pub closed spec fn spec_state(&self) -> PipelineState {
        self.state
    }

    /// The format the current queue was sized for.
    pub closed spec fn spec_format(&self) -> StreamFormat {
        self.format
    }

    /// The queue, while the pipeline holds one.
    pub closed spec fn spec_queue(&self) -> Option<SampleQueue> {
        self.queue
    }

    pub closed spec fn wf(&self) -> bool {
        match self.state {
            PipelineState::PreFilled => self.queue matches Some(q) && q.wf(),
            PipelineState::Running => self.queue matches Some(q) ==> q.wf(),
            _ => self.queue is None,
        }
    }

    pub fn new() -> (s: PipelineSupervisor)
        ensures
            s.wf(),
            s.spec_state() == PipelineState::Idle,
    {
        PipelineSupervisor {
            state: PipelineState::Idle,
            format: StreamFormat { sample_rate: 0, channel_count: 0 },
            queue: None,
            capture: CaptureFeed::new(),
            render: RenderSink::new(),
        }
    }

    pub fn state(&self) -> (s: PipelineState)
        ensures
            s == self.spec_state(),
    {
        self.state
    }

    /// The number of unread samples in the queue, zero when there is none.
    pub fn queued(&self) -> (n: usize)
        requires
            self.wf(),
        ensures
            self.spec_queue() matches Some(q) ==> n == q@.len(),
            self.spec_queue() is None ==> n == 0,
    {
        match &self.queue {
            Some(q) => q.len(),
            None => 0,
        }
    }

    /// Sizes a new queue for `format` and a latency of `target_latency_ms`
    /// milliseconds, and fills it with the pre-fill's worth of silence.
    /// Refused while a pipeline is pre-filled or running; a sizing that
    /// `compute` refuses, or that leaves no room at all, is `InvalidFormat`.
    /// A refused start changes nothing.
    pub fn start(&mut self, format: StreamFormat, target_latency_ms: u64) -> (r: Result<
        Sizing,
        PipelineError,
    >)
        requires
            old(self).wf(),
        ensures
            final(self).wf(),
            (old(self).spec_state() == PipelineState::PreFilled || old(self).spec_state()
                == PipelineState::Running) ==> r == Err::<Sizing, PipelineError>(
                PipelineError::AlreadyActive,
            ),
            (old(self).spec_state() == PipelineState::Idle || old(self).spec_state()
                == PipelineState::Stopped) ==> {
                let ms = target_latency_ms as nat;
                let p = prefill_for(
                    format.sample_rate as nat,
                    format.channel_count as nat,
                    ms,
                );
                if sizing_ok(format, ms) && p > 0 {
                    &&& r == Ok::<Sizing, PipelineError>(
                        Sizing { capacity: (2 * p) as usize, prefill: p as usize },
                    )
                    &&& final(self).spec_state() == PipelineState::PreFilled
                    &&& final(self).spec_format() == format
                    &&& final(self).spec_queue() matches Some(q) && q@ == silence(p)
                        && q.spec_capacity() == 2 * p
                } else {
                    r == Err::<Sizing, PipelineError>(PipelineError::InvalidFormat)
                }
            },
            r is Err ==> *final(self) == *old(self),
    {
        if self.state == PipelineState::PreFilled || self.state == PipelineState::Running {
            return Err(PipelineError::AlreadyActive);
        }
        let sizing = match compute(format, target_latency_ms) {
            Ok(s) => s,
            Err(e) => return Err(e),
        };
        if sizing.capacity == 0 {
            return Err(PipelineError::InvalidFormat);
        }
        let mut queue = SampleQueue::new(sizing.capacity);
        let mut i: usize = 0;
        while i < sizing.prefill
            invariant
                queue.wf(),
                queue.spec_capacity() == sizing.capacity,
                sizing.capacity == 2 * sizing.prefill,
                i <= sizing.prefill,
                queue@ == silence(i as nat),
            decreases sizing.prefill - i,
        {
            queue.push(0u32);
            assert(queue@ == silence(i as nat + 1));
            i = i + 1;
        }
        self.queue = Some(queue);
        self.format = format;
        self.state = PipelineState::PreFilled;
        Ok(sizing)
    }

    /// Takes the outcome of opening the two devices: the format each runs
    /// at, or `None` where it could not be opened. With both open at the
    /// pipeline's format the pipeline runs. A missing device is
    /// `DeviceUnavailable`, a differing format `StreamConfigMismatch`; either
    /// ends the pipeline. Without a pre-filled pipeline this is
    /// `NotPrefilled` and changes nothing.
    pub fn attach(&mut self, input: Option<StreamFormat>, output: Option<StreamFormat>) -> (r:
        Result<(), PipelineError>)
        requires
            old(self).wf(),
        ensures
            final(self).wf(),
            old(self).spec_state() != PipelineState::PreFilled ==> r == Err::<(), PipelineError>(
                PipelineError::NotPrefilled,
            ) && *final(self) == *old(self),
            old(self).spec_state() == PipelineState::PreFilled ==> {
                if input is None || output is None {
                    &&& r == Err::<(), PipelineError>(PipelineError::DeviceUnavailable)
                    &&& final(self).spec_state() == PipelineState::Stopped
                    &&& final(self).spec_queue() is None
                } else if input != Some(old(self).spec_format()) || output != Some(
                    old(self).spec_format(),
                ) {
                    &&& r == Err::<(), PipelineError>(PipelineError::StreamConfigMismatch)
                    &&& final(self).spec_state() == PipelineState::Stopped
                    &&& final(self).spec_queue() is None
                } else {
                    &&& r == Ok::<(), PipelineError>(())
                    &&& final(self).spec_state() == PipelineState::Running
                    &&& final(self).spec_queue() == old(self).spec_queue()
                    &&& final(self).spec_format() == old(self).spec_format()
                }
            },
    {
        if self.state != PipelineState::PreFilled {
            return Err(PipelineError::NotPrefilled);
        }
        let (fin, fout) = match (input, output) {
            (Some(i), Some(o)) => (i, o),
            _ => {
                self.stop();
                return Err(PipelineError::DeviceUnavailable);
            },
        };
        if fin != self.format || fout != self.format {
            self.stop();
            return Err(PipelineError::StreamConfigMismatch);
        }
        self.state = PipelineState::Running;
        Ok(())
    }

    /// One captured block, while running with the queue in hand: see
    /// `CaptureFeed::on_block`. Otherwise the block is ignored. Returns whether samples were
    /// dropped.
    pub fn capture_block(&mut self, samples: &[u32]) -> (overflowed: bool)
        requires
            old(self).wf(),
        ensures
            final(self).wf(),
            final(self).spec_state() == old(self).spec_state(),
            final(self).spec_format() == old(self).spec_format(),
            !(old(self).spec_state() == PipelineState::Running && old(self).spec_queue() is Some)
                ==> !overflowed && final(self).spec_queue() == old(self).spec_queue(),
            old(self).spec_state() == PipelineState::Running && old(self).spec_queue() is Some ==> {
                let q0 = old(self).spec_queue().unwrap();
                let q1 = final(self).spec_queue().unwrap();
                &&& final(self).spec_queue() is Some
                &&& q1.spec_capacity() == q0.spec_capacity()
                &&& q1@ == push_all(q0@, q0.spec_capacity(), samples@)
                &&& overflowed == (q0@.len() + samples@.len() > q0.spec_capacity())
            },
    {
        if self.state != PipelineState::Running {
            return false;
        }
        match &mut self.queue {
            Some(q) => self.capture.on_block(q, samples),
            None => false,
        }
    }

    /// One output block: while running with the queue in hand see
    /// `RenderSink::on_block`; otherwise the block is filled with silence. Returns whether the
    /// queue ran dry.
    pub fn render_block(&mut self, buffer: &mut [u32]) -> (underflowed: bool)
        requires
            old(self).wf(),
        ensures
            final(self).wf(),
            final(self).spec_state() == old(self).spec_state(),
            final(self).spec_format() == old(self).spec_format(),
            !(old(self).spec_state() == PipelineState::Running && old(self).spec_queue() is Some)
                ==> !underflowed && final(self).spec_queue() == old(self).spec_queue()
                && final(buffer)@ == silence(old(buffer)@.len()),
            old(self).spec_state() == PipelineState::Running && old(self).spec_queue() is Some ==> {
                let q0 = old(self).spec_queue().unwrap();
                let q1 = final(self).spec_queue().unwrap();
                let n = old(buffer)@.len();
                &&& final(self).spec_queue() is Some
                &&& q1.spec_capacity() == q0.spec_capacity()
                &&& final(buffer)@ == rendered(q0@, n)
                &&& n <= q0@.len() ==> q1@ == q0@.skip(n as int)
                &&& n > q0@.len() ==> q1@.len() == 0
                &&& underflowed == (n > q0@.len())
            },
    {
        if self.state == PipelineState::Running {
            match &mut self.queue {
                Some(q) => {
                    return self.render.on_block(q, buffer);
                },
                None => {},
            }
        }
        let ghost n = buffer@.len();
        let mut i: usize = 0;
        while i < buffer.len()
            invariant
                buffer@.len() == n,
                i <= n,
                forall|j: int| 0 <= j < i ==> buffer@[j] == 0u32,
            decreases n - i,
        {
            buffer[i] = 0u32;
            i = i + 1;
        }
        assert(buffer@ == silence(n));
        false
    }

    /// Hands the two ends of the running pipeline's queue to the device
    /// callbacks, which then run on their own threads without locking. Only
    /// a running pipeline that still holds its queue has them to give;
    /// afterwards the pipeline stays running without a queue of its own.
    pub fn take_ends(&mut self) -> (ends: Option<(SampleProducer, SampleConsumer)>)
        requires
            old(self).wf(),
        ensures
            final(self).wf(),
            final(self).spec_state() == old(self).spec_state(),
            final(self).spec_format() == old(self).spec_format(),
            (old(self).spec_state() == PipelineState::Running && old(self).spec_queue() is Some)
                <==> ends is Some,
            ends is Some ==> final(self).spec_queue() is None,
            ends is None ==> *final(self) == *old(self),
    {
        if self.state != PipelineState::Running {
            return None;
        }
        match self.queue.take() {
            Some(q) => Some(q.split()),
            None => None,
        }
    }

    /// Detaches the pipeline and releases its queue. Stopping a stopped
    /// pipeline is allowed and changes nothing.
    pub fn stop(&mut self)
        requires
            old(self).wf(),
        ensures
            final(self).wf(),
            final(self).spec_state() == PipelineState::Stopped,
            final(self).spec_queue() is None,
            final(self).spec_format() == old(self).spec_format(),
    {
        self.queue = None;
        self.state = PipelineState::Stopped;
    }
}

} // verus!
