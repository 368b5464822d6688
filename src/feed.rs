use vstd::prelude::*;
use crate::queue::{
    accepted_count, empty_takes, push_all, rejected, SampleConsumer, SampleProducer, SampleQueue,
};

verus! {

/// The samples a render block of `n` slots plays from a queue holding
/// `items`: the unread samples in order, then silence for every slot that
/// finds the queue empty.
pub open spec fn rendered(items: Seq<u32>, n: nat) -> Seq<u32> {
    Seq::new(n, |i: int| if i < items.len() { items[i] } else { 0u32 })
}

/// What an output slot plays for the outcome of one pop: the sample, or
/// silence when the queue had none.
pub open spec fn slot_of(popped: Option<u32>) -> u32 {
    match popped {
        Some(s) => s,
        None => 0u32,
    }
}

/// The underrun policy for one output slot: see `slot_of`.
pub fn slot_value(popped: Option<u32>) -> (v: u32)
    ensures
        v == slot_of(popped),
{
    match popped {
        Some(s) => s,
        None => 0u32,
    }
}

/// The producer side of a pipeline, driven by the capture device once per
/// block.
pub struct CaptureFeed {
    /// Set when a sample of the latest block found the queue full.
    pub overflowed_this_block: bool,
}

impl CaptureFeed {
    pub fn new() -> (f: CaptureFeed)
        ensures
            !f.overflowed_this_block,
    {
        CaptureFeed { overflowed_this_block: false }
    }

    /// Pushes every sample of a captured block in order. Samples that find
    /// the queue full are dropped, and the block is flagged once. Returns the
    /// flag.
    pub fn on_block(&mut self, queue: &mut SampleQueue, samples: &[u32]) -> (overflowed: bool)
        requires
            old(queue).wf(),
        ensures
            final(queue).wf(),
            final(queue).spec_capacity() == old(queue).spec_capacity(),
            final(queue)@ == push_all(old(queue)@, old(queue).spec_capacity(), samples@),
            final(queue)@ == old(queue)@ + samples@.take(
                accepted_count(old(queue)@.len(), old(queue).spec_capacity(), samples@.len())
                    as int,
            ),
            overflowed == (old(queue)@.len() + samples@.len() > old(queue).spec_capacity()),
            final(self).overflowed_this_block == overflowed,
    {
        let stored = queue.push_slice(samples);
        let overflowed = stored < samples.len();
        self.overflowed_this_block = overflowed;
        overflowed
    }

    /// Pushes every sample of a captured block in order through the writing
    /// end of a split queue, and flags the block once if any was dropped.
    /// Returns the number dropped.
    pub fn on_shared_block(&mut self, producer: &mut SampleProducer, samples: &[u32]) -> (dropped:
        usize)
        ensures
            final(producer).offers().len() == old(producer).offers().len() + samples@.len(),
            final(producer).offers().take(old(producer).offers().len() as int) == old(
                producer,
            ).offers(),
            forall|i: int|
                0 <= i < samples@.len() ==> #[trigger] final(producer).offers()[old(
                    producer,
                ).offers().len() + i].0 == samples@[i],
            dropped == rejected(final(producer).offers().skip(old(producer).offers().len() as int)),
            final(self).overflowed_this_block == (dropped > 0),
    {
        let ghost start = producer.offers();
        let mut dropped: usize = 0;
        let mut i: usize = 0;
        while i < samples.len()
            invariant
                i <= samples@.len(),
                dropped <= i,
                producer.offers().len() == start.len() + i,
                producer.offers().take(start.len() as int) == start,
                forall|j: int|
                    0 <= j < i ==> #[trigger] producer.offers()[start.len() + j].0 == samples@[j],
                dropped == rejected(producer.offers().skip(start.len() as int)),
            decreases samples@.len() - i,
        {
            let ghost before = producer.offers();
            let accepted = producer.push(samples[i]);
            if !accepted {
                dropped = dropped + 1;
            }
            proof {
                let after = producer.offers();
                assert(after.skip(start.len() as int).drop_last() =~= before.skip(
                    start.len() as int,
                ));
                assert(after.take(start.len() as int) =~= before.take(start.len() as int));
            }
            i = i + 1;
        }
        self.overflowed_this_block = dropped > 0;
        dropped
    }
}

/// The consumer side of a pipeline, driven by the playback device once per
/// block.
pub struct RenderSink {
    /// Set when a slot of the latest block found the queue empty.
    pub underflowed_this_block: bool,
}

impl RenderSink {
    pub fn new() -> (s: RenderSink)
        ensures
            !s.underflowed_this_block,
    {
        RenderSink { underflowed_this_block: false }
    }

    /// Overwrites every slot of an output block with the next unread sample,
    /// or with silence once the queue is empty, and flags the block once if
    /// that happened. Returns the flag.
    pub fn on_block(&mut self, queue: &mut SampleQueue, buffer: &mut [u32]) -> (underflowed: bool)
        requires
            old(queue).wf(),
        ensures
            final(queue).wf(),
            final(queue).spec_capacity() == old(queue).spec_capacity(),
            final(buffer)@ == rendered(old(queue)@, old(buffer)@.len()),
            old(buffer)@.len() <= old(queue)@.len() ==> final(queue)@ == old(queue)@.skip(
                old(buffer)@.len() as int,
            ),
            old(buffer)@.len() > old(queue)@.len() ==> final(queue)@.len() == 0,
            underflowed == (old(buffer)@.len() > old(queue)@.len()),
            final(self).underflowed_this_block == underflowed,
    {
        let ghost start = queue@;
        let ghost cap = queue.spec_capacity();
        let ghost n = buffer@.len();
        let mut underflowed = false;
        let mut i: usize = 0;
        while i < buffer.len()
            invariant
                queue.wf(),
                queue.spec_capacity() == cap,
                buffer@.len() == n,
                i <= n,
                i <= start.len() ==> queue@ == start.skip(i as int),
                i > start.len() ==> queue@.len() == 0,
                underflowed == (i > start.len()),
                forall|j: int| 0 <= j < i ==> buffer@[j] == rendered(start, n)[j],
            decreases n - i,
        {
            let popped = queue.pop();
            if popped.is_none() {
                underflowed = true;
            }
            buffer[i] = slot_value(popped);
            proof {
                if i < start.len() {
                    assert(start.skip(i as int).drop_first() == start.skip(i + 1));
                }
            }
            i = i + 1;
        }
        assert(buffer@ == rendered(start, n));
        self.underflowed_this_block = underflowed;
        underflowed
    }

    /// Overwrites every slot of an output block through the reading end of a
    /// split queue: the next unread sample, or silence where the queue was
    /// empty. Flags the block once if that happened. Returns the number of
    /// silent slots.
    pub fn on_shared_block(&mut self, consumer: &mut SampleConsumer, buffer: &mut [u32]) -> (silent:
        usize)
        ensures
            final(consumer).takes().len() == old(consumer).takes().len() + old(buffer)@.len(),
            final(consumer).takes().take(old(consumer).takes().len() as int) == old(
                consumer,
            ).takes(),
            final(buffer)@ == final(consumer).takes().skip(
                old(consumer).takes().len() as int,
            ).map_values(|t: Option<u32>| slot_of(t)),
            silent == empty_takes(final(consumer).takes().skip(old(consumer).takes().len() as int)),
            final(self).underflowed_this_block == (silent > 0),
    {
        let ghost n = buffer@.len();
        let ghost start = consumer.takes();
        let mut silent: usize = 0;
        let mut i: usize = 0;
        while i < buffer.len()
            invariant
                buffer@.len() == n,
                i <= n,
                silent <= i,
                consumer.takes().len() == start.len() + i,
                consumer.takes().take(start.len() as int) == start,
                forall|j: int|
                    0 <= j < i ==> #[trigger] buffer@[j] == slot_of(
                        consumer.takes()[start.len() + j],
                    ),
                silent == empty_takes(consumer.takes().skip(start.len() as int)),
            decreases n - i,
        {
            let ghost before = consumer.takes();
            let popped = consumer.pop();
            if popped.is_none() {
                silent = silent + 1;
            }
            buffer[i] = slot_value(popped);
            proof {
                let after = consumer.takes();
                assert(after.skip(start.len() as int).drop_last() =~= before.skip(
                    start.len() as int,
                ));
                assert(after.take(start.len() as int) =~= before.take(start.len() as int));
            }
            i = i + 1;
        }
        assert(buffer@ =~= consumer.takes().skip(start.len() as int).map_values(
            |t: Option<u32>| slot_of(t),
        ));
        self.underflowed_this_block = silent > 0;
        silent
    }
}

} // verus!
