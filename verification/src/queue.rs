//! The bounded sample queue shared between the producer and the consumer.
//!
//! Samples sit in insertion order; the length never exceeds
//! [`MAX_SAMPLES`]. When a push would exceed the cap, the oldest excess
//! samples are evicted together with the insert, and the evicted count is
//! returned for diagnostics. The surroundings guard a `SampleQueue` with a
//! lock; every operation here is a single critical section.

use std::collections::VecDeque;
use vstd::prelude::*;

verus! {

/// Hard capacity of the sample queue.
pub const MAX_SAMPLES: usize = 131072;

/// The queue contents after pushing `s` onto `q`: the concatenation, with
/// the oldest excess dropped whenever the combined length exceeds the cap.
pub open spec fn push_result(q: Seq<u32>, s: Seq<u32>) -> Seq<u32> {
    let all = q + s;
    if all.len() <= MAX_SAMPLES {
        all
    } else {
        all.skip(all.len() - MAX_SAMPLES)
    }
}

/// How many samples a push of `s` onto `q` evicts.
pub open spec fn push_evicted(q: Seq<u32>, s: Seq<u32>) -> nat {
    if q.len() + s.len() <= MAX_SAMPLES {
        0
    } else {
        ((q.len() + s.len()) - MAX_SAMPLES) as nat
    }
}

/// A bounded FIFO of 32-bit samples with oldest-first eviction.
pub struct SampleQueue {
    buf: VecDeque<u32>,
}

impl View for SampleQueue {
    type V = Seq<u32>;

    closed spec fn view(&self) -> Seq<u32> {
        self.buf@
    }
}

impl SampleQueue {
    /// The capacity invariant: the queue never holds more than the cap.
    pub open spec fn wf(&self) -> bool {
        self@.len() <= MAX_SAMPLES
    }

    /// An empty queue.
    pub fn new() -> (q: SampleQueue)
        ensures
            q@ == Seq::<u32>::empty(),
            q.wf(),
    {
        SampleQueue { buf: VecDeque::new() }
    }

    /// How many samples are queued.
    pub fn len(&self) -> (n: usize)
        ensures
            n == self@.len(),
    {
        self.buf.len()
    }

    /// Appends `samples` in order; if the result would exceed the cap, the
    /// oldest excess samples are evicted with the insert, and the number of
    /// evicted samples is returned.
    pub fn push_many(&mut self, samples: &Vec<u32>) -> (evicted: usize)
        requires
            old(self).wf(),
        ensures
            final(self)@ == push_result(old(self)@, samples@),
            evicted == push_evicted(old(self)@, samples@),
            old(self)@.len() + samples@.len() <= MAX_SAMPLES ==> evicted == 0 && final(self)@
                == old(self)@ + samples@,
            final(self).wf(),
    {
        let ghost q0: Seq<u32> = self@;
        let mut i: usize = 0;
        while i < samples.len()
            invariant
                i <= samples@.len(),
                self@ =~= q0 + samples@.take(i as int),
            decreases samples@.len() - i,
        {
            self.buf.push_back(samples[i]);
            i = i + 1;
            assert(self@ =~= q0 + samples@.take(i as int));
        }
        assert(self@ =~= q0 + samples@);
        let ghost all: Seq<u32> = q0 + samples@;
        let s_len: usize = samples.len();
        let mut evicted: usize = 0;
        while self.buf.len() > MAX_SAMPLES
            invariant
                q0.len() <= MAX_SAMPLES,
                all == q0 + samples@,
                samples@.len() == s_len,
                evicted <= all.len(),
                self@ =~= all.skip(evicted as int),
                all.len() <= MAX_SAMPLES ==> evicted == 0,
                all.len() > MAX_SAMPLES ==> self@.len() >= MAX_SAMPLES,
            decreases self@.len(),
        {
            self.buf.pop_front();
            evicted = evicted + 1;
            assert(self@ =~= all.skip(evicted as int));
        }
        proof {
            if all.len() <= MAX_SAMPLES {
                assert(self@ =~= all);
            } else {
                assert(self@.len() == all.len() - evicted);
                assert(self@.len() == MAX_SAMPLES);
                assert(evicted == all.len() - MAX_SAMPLES);
            }
            assert(self@ =~= push_result(q0, samples@));
        }
        evicted
    }

    /// Removes and returns the oldest sample, or `None` on an empty queue.
    pub fn pop_front(&mut self) -> (r: Option<u32>)
        ensures
            old(self)@.len() == 0 ==> r is None && final(self)@ == old(self)@,
            old(self)@.len() > 0 ==> r == Some(old(self)@[0])
                && final(self)@ == old(self)@.skip(1),
            final(self)@.len() <= old(self)@.len(),
            old(self).wf() ==> final(self).wf(),
    {
        let r = self.buf.pop_front();
        proof {
            if old(self)@.len() > 0 {
                assert(final(self)@ =~= old(self)@.skip(1));
            }
        }
        r
    }
}

/// The samples that `n` successive pops return from a queue whose contents
/// are `q`, in the order they come out.
pub open spec fn drained(q: Seq<u32>, n: int) -> Seq<u32>
    decreases n,
{
    if n <= 0 || q.len() == 0 {
        Seq::<u32>::empty()
    } else {
        seq![q[0]] + drained(q.skip(1), n - 1)
    }
}

/// FIFO order: successive pops return the queued samples exactly in the
/// order they were pushed — draining `n` samples from a queue holding `q`
/// yields precisely the first `n` of `q`, with no reordering.
pub proof fn lemma_pops_in_insertion_order(q: Seq<u32>, n: int)
    requires
        0 <= n <= q.len(),
    ensures
        drained(q, n) == q.take(n),
    decreases n,
{
    if n <= 0 {
        assert(drained(q, n) =~= q.take(n));
    } else {
        lemma_pops_in_insertion_order(q.skip(1), n - 1);
        assert(drained(q, n) =~= q.take(n));
    }
}

/// No reordering across the queue boundary: when a push fits under the cap,
/// draining the whole queue afterwards yields exactly the earlier contents
/// followed by the pushed batch, in their original order.
pub proof fn lemma_push_keeps_order(q: Seq<u32>, s: Seq<u32>)
    requires
        q.len() + s.len() <= MAX_SAMPLES,
    ensures
        drained(push_result(q, s), (q.len() + s.len()) as int) == q + s,
{
    lemma_pops_in_insertion_order(q + s, (q.len() + s.len()) as int);
    assert((q + s).take((q.len() + s.len()) as int) =~= q + s);
}

} // verus!
