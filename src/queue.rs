use vstd::prelude::*;
use crate::ring::{
    consumer_try_pop, producer_try_push, ring_capacity, ring_items, ring_new, ring_occupied_len,
    ring_split, ring_try_pop, ring_try_push, Ring, RingConsumer, RingProducer,
};

verus! {

/// The queue after offering `sample` to a queue holding `items` with room for
/// `capacity`: appended when there is room, dropped otherwise.
pub open spec fn push_step(items: Seq<u32>, capacity: nat, sample: u32) -> Seq<u32> {
    if items.len() < capacity {
        items.push(sample)
    } else {
        items
    }
}

/// The queue after offering each of `samples` in turn.
pub open spec fn push_all(items: Seq<u32>, capacity: nat, samples: Seq<u32>) -> Seq<u32>
    decreases samples.len(),
{
    if samples.len() == 0 {
        items
    } else {
        push_step(push_all(items, capacity, samples.drop_last()), capacity, samples.last())
    }
}

/// What `n` pops in a row return from a queue holding `items`: the unread
/// samples in order, then `None` for every pop that finds the queue empty.
pub open spec fn pop_all(items: Seq<u32>, n: nat) -> Seq<Option<u32>>
    decreases n,
{
    if n == 0 {
        Seq::empty()
    } else if items.len() == 0 {
        seq![None].add(pop_all(items, (n - 1) as nat))
    } else {
        seq![Some(items[0])].add(pop_all(items.drop_first(), (n - 1) as nat))
    }
}

/// The number of samples out of `n` offered that a queue holding `len` unread
/// samples with room for `capacity` accepts.
pub open spec fn accepted_count(len: nat, capacity: nat, n: nat) -> nat {
    if len + n <= capacity {
        n
    } else if len <= capacity {
        (capacity - len) as nat
    } else {
        0
    }
}

/// A bounded FIFO queue of samples. Pushing into a full queue drops the
/// offered sample; popping an empty queue yields nothing. Neither operation
/// blocks or allocates.
pub struct SampleQueue {
    rb: Ring,
    capacity: usize,
}

impl SampleQueue {
    pub closed spec fn spec_capacity(&self) -> nat {
        self.capacity as nat
    }

    pub closed spec fn wf(&self) -> bool {
        &&& self.capacity > 0
        &&& ring_capacity(self.rb) == self.capacity as nat
        &&& ring_items(self.rb).len() <= self.capacity
    }

    pub fn new(capacity: usize) -> (q: SampleQueue)
        requires
            capacity > 0,
        ensures
            q.wf(),
            q@ == Seq::<u32>::empty(),
            q.spec_capacity() == capacity,
    {
        SampleQueue { rb: ring_new(capacity), capacity }
    }

    pub fn capacity(&self) -> (c: usize)
        requires
            self.wf(),
        ensures
            c == self.spec_capacity(),
    {
        self.capacity
    }

    /// The number of unread samples.
    pub fn len(&self) -> (n: usize)
        requires
            self.wf(),
        ensures
            n == self@.len(),
    {
        ring_occupied_len(&self.rb)
    }

    pub fn is_empty(&self) -> (b: bool)
        requires
            self.wf(),
        ensures
            b == (self@.len() == 0),
    {
        self.len() == 0
    }

    pub fn is_full(&self) -> (b: bool)
        requires
            self.wf(),
        ensures
            b == (self@.len() == self.spec_capacity()),
    {
        self.len() == self.capacity
    }

    /// Offers one sample. Returns `true` when it was stored, `false` when the
    /// queue was full: then the sample is dropped and the unread samples stay
    /// as they were.
    pub fn push(&mut self, sample: u32) -> (accepted: bool)
        requires
            old(self).wf(),
        ensures
            final(self).wf(),
            final(self).spec_capacity() == old(self).spec_capacity(),
            accepted == (old(self)@.len() < old(self).spec_capacity()),
            final(self)@ == push_step(old(self)@, old(self).spec_capacity(), sample),
    {
        ring_try_push(&mut self.rb, sample)
    }

    /// Takes the oldest unread sample, or `None` when there is none; an empty
    /// queue stays as it was.
    pub fn pop(&mut self) -> (sample: Option<u32>)
        requires
            old(self).wf(),
        ensures
            final(self).wf(),
            final(self).spec_capacity() == old(self).spec_capacity(),
            old(self)@.len() == 0 ==> sample.is_none() && final(self)@ == old(self)@,
            old(self)@.len() > 0 ==> sample == Some(old(self)@[0]) && final(self)@
                == old(self)@.drop_first(),
            seq![sample] == pop_all(old(self)@, 1),
    {
        let sample = ring_try_pop(&mut self.rb);
        assert(pop_all(old(self)@, 1) =~= seq![sample]) by {
            reveal_with_fuel(pop_all, 2);
        }
        sample
    }

    /// Offers each of `samples` in order. Returns the number stored: once the
    /// queue is full the rest are dropped.
    pub fn push_slice(&mut self, samples: &[u32]) -> (stored: usize)
        requires
            old(self).wf(),
        ensures
            final(self).wf(),
            final(self).spec_capacity() == old(self).spec_capacity(),
            stored == accepted_count(old(self)@.len(), old(self).spec_capacity(), samples@.len()),
            (stored < samples@.len()) == (old(self)@.len() + samples@.len()
                > old(self).spec_capacity()),
            final(self)@ == old(self)@ + samples@.take(stored as int),
            final(self)@ == push_all(old(self)@, old(self).spec_capacity(), samples@),
    {
        let ghost cap = self.spec_capacity();
        let ghost start = self@;
        let mut stored: usize = 0;
        let mut i: usize = 0;
        while i < samples.len()
            invariant
                self.wf(),
                self.spec_capacity() == cap,
                start.len() <= cap,
                i <= samples@.len(),
                stored == accepted_count(start.len(), cap, i as nat),
                self@ == start + samples@.take(stored as int),
                self@ == push_all(start, cap, samples@.take(i as int)),
            decreases samples@.len() - i,
        {
            assert(samples@.take(i as int + 1).drop_last() == samples@.take(i as int));
            if self.push(samples[i]) {
                assert(samples@.take(stored as int + 1) == samples@.take(stored as int).push(samples@[i as int])) by {
                    assert(stored == i);
                }
                stored = stored + 1;
            }
            i = i + 1;
        }
        assert(samples@.take(samples@.len() as int) == samples@);
        stored
    }
}

impl View for SampleQueue {
    type V = Seq<u32>;

    closed spec fn view(&self) -> Seq<u32> {
        ring_items(self.rb)
    }
}

/// The writing end of a queue that was split for use from two threads. Its
/// pushes race with the reading end's pops, so their outcome is not known in
/// advance; what the single-threaded `SampleQueue` promises still holds of
/// the interleaving that actually happens.
pub struct SampleProducer {
    p: RingProducer,
    offers: Ghost<Seq<(u32, bool)>>,
}

/// The reading end of a queue that was split for use from two threads.
pub struct SampleConsumer {
    c: RingConsumer,
    takes: Ghost<Seq<Option<u32>>>,
}

/// How many of `offers` were refused.
pub open spec fn rejected(offers: Seq<(u32, bool)>) -> nat
    decreases offers.len(),
{
    if offers.len() == 0 {
        0
    } else {
        rejected(offers.drop_last()) + if offers.last().1 {
            0nat
        } else {
            1nat
        }
    }
}

/// How many of `takes` found the queue empty.
pub open spec fn empty_takes(takes: Seq<Option<u32>>) -> nat
    decreases takes.len(),
{
    if takes.len() == 0 {
        0
    } else {
        empty_takes(takes.drop_last()) + if takes.last() is None {
            1nat
        } else {
            0nat
        }
    }
}

impl SampleQueue {
    /// Splits the queue into a writing end and a reading end that may be
    /// moved to two different threads. The unread samples stay queued.
    pub fn split(self) -> (ends: (SampleProducer, SampleConsumer))
        requires
            self.wf(),
        ensures
            ends.0.offers() == Seq::<(u32, bool)>::empty(),
            ends.1.takes() == Seq::<Option<u32>>::empty(),
    {
        let (p, c) = ring_split(self.rb);
        (
            SampleProducer { p, offers: Ghost(Seq::empty()) },
            SampleConsumer { c, takes: Ghost(Seq::empty()) },
        )
    }
}

impl SampleProducer {
    /// Every sample offered through this end so far, oldest first, each with
    /// whether it was stored.
    pub closed spec fn offers(&self) -> Seq<(u32, bool)> {
        self.offers@
    }

    /// Offers one sample; `false` when the queue was full and the sample was
    /// dropped.
    pub fn push(&mut self, sample: u32) -> (accepted: bool)
        ensures
            final(self).offers() == old(self).offers().push((sample, accepted)),
    {
        let accepted = producer_try_push(&mut self.p, sample);
        self.offers = Ghost(self.offers@.push((sample, accepted)));
        accepted
    }
}

impl SampleConsumer {
    /// The outcome of every pop through this end so far, oldest first.
    pub closed spec fn takes(&self) -> Seq<Option<u32>> {
        self.takes@
    }

    /// Takes the oldest unread sample, or `None` when there was none.
    pub fn pop(&mut self) -> (sample: Option<u32>)
        ensures
            final(self).takes() == old(self).takes().push(sample),
    {
        let sample = consumer_try_pop(&mut self.c);
        self.takes = Ghost(self.takes@.push(sample));
        sample
    }
}

/// Pushing any sequence of at most `capacity` samples into an empty queue and
/// then popping `capacity` times returns exactly those samples in order,
/// followed by an empty result for each pop beyond them.
pub proof fn fifo_round_trip(capacity: nat, samples: Seq<u32>)
    requires
        capacity > 0,
        samples.len() <= capacity,
    ensures
        push_all(Seq::empty(), capacity, samples) == samples,
        pop_all(samples, capacity).take(samples.len() as int)
            == samples.map_values(|s: u32| Some(s)),
        forall|i: int|
            samples.len() <= i < capacity ==> #[trigger] pop_all(samples, capacity)[i]
                is None,
        pop_all(samples, capacity).len() == capacity,
{
    push_all_fits(samples, capacity);
    pop_all_shape(samples, capacity);
}

proof fn push_all_fits(samples: Seq<u32>, capacity: nat)
    requires
        samples.len() <= capacity,
    ensures
        push_all(Seq::empty(), capacity, samples) == samples,
    decreases samples.len(),
{
    if samples.len() > 0 {
        push_all_fits(samples.drop_last(), capacity);
        assert(samples.drop_last().push(samples.last()) == samples);
    }
}

proof fn pop_all_shape(items: Seq<u32>, n: nat)
    requires
        items.len() <= n,
    ensures
        pop_all(items, n).len() == n,
        forall|i: int| 0 <= i < items.len() ==> #[trigger] pop_all(items, n)[i] == Some(items[i]),
        forall|i: int| items.len() <= i < n ==> #[trigger] pop_all(items, n)[i] is None,
    decreases n,
{
    if n > 0 {
        if items.len() == 0 {
            pop_all_shape(items, (n - 1) as nat);
        } else {
            pop_all_shape(items.drop_first(), (n - 1) as nat);
        }
    }
}

} // verus!
