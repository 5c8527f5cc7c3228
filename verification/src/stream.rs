//! Consumer-side stream facade: one demand for the next sample.
//!
//! The facade exposes a lazy, single-consumer sequence of samples that ends
//! only on shutdown. Each demand runs [`poll_step`] under the shared locks;
//! when it answers `Pending`, the consumer suspends and is resumed by the
//! handle that the producer takes out of the wake coordinator.

use crate::queue::SampleQueue;
use crate::queue::push_result;
use crate::wake::WakeState;
use crate::wake::taken_handle;
use vstd::prelude::*;

verus! {

/// The answer to one demand for the next sample.
#[derive(Clone, Copy, Debug, PartialEq, Eq, Structural)]
pub enum PollOutcome {
    /// The oldest queued sample, yielded immediately.
    Sample(u32),
    /// Queue empty: the continuation handle is parked; the producer resumes
    /// the consumer when data arrives.
    Pending,
    /// Shutdown was signaled: the sequence has ended.
    Ended,
}

/// What one demand answers, given the shutdown flag and the queue contents
/// at the time it runs: end on shutdown, else the oldest sample, else
/// suspend.
pub open spec fn poll_decision(shutdown: bool, q: Seq<u32>) -> PollOutcome {
    if shutdown {
        PollOutcome::Ended
    } else if q.len() > 0 {
        PollOutcome::Sample(q[0])
    } else {
        PollOutcome::Pending
    }
}

/// One demand for the next sample: ends the sequence on shutdown without
/// touching the wake record (a stored continuation is left alone, never
/// re-invoked); otherwise yields the oldest queued sample; otherwise parks
/// `handle` for the producer, re-checking shutdown and the queue once more
/// before reporting `Pending`, so that nothing that arrived meanwhile is
/// missed.
pub fn poll_step<W>(queue: &mut SampleQueue, wake: &mut WakeState<W>, handle: W) -> (r:
    PollOutcome)
    ensures
        r == poll_decision(old(wake).spec_shutdown(), old(queue)@),
        old(wake).spec_shutdown() ==> final(queue)@ == old(queue)@ && *final(wake) == *old(wake),
        !old(wake).spec_shutdown() && old(queue)@.len() > 0 ==> final(queue)@ == old(
            queue,
        )@.skip(1) && *final(wake) == *old(wake),
        !old(wake).spec_shutdown() && old(queue)@.len() == 0 ==> final(queue)@ == old(queue)@
            && final(wake).spec_handle() == Some(handle) && !final(wake).spec_has_data()
            && !final(wake).spec_shutdown(),
{
    if wake.is_shutdown() {
        return PollOutcome::Ended;
    }
    match queue.pop_front() {
        Some(sample) => {
            return PollOutcome::Sample(sample);
        },
        None => {},
    }
    let ended = wake.register(handle);
    if ended {
        return PollOutcome::Ended;
    }
    match queue.pop_front() {
        Some(sample) => PollOutcome::Sample(sample),
        None => PollOutcome::Pending,
    }
}

/// Once shutdown is signaled, every demand ends the sequence, whatever the
/// queue holds; by `poll_step`'s contract that demand also leaves the wake
/// record untouched, so a continuation still stored from an earlier
/// suspension is not taken out and cannot be invoked a second time.
pub proof fn lemma_shutdown_ends_stream<W>(w: WakeState<W>, q: Seq<u32>)
    requires
        w.spec_shutdown(),
    ensures
        poll_decision(w.spec_shutdown(), q) is Ended,
{
}

/// No lost wakeup: a consumer that observed an empty queue and parked its
/// continuation (handle stored, "no data" marked) is resumed by the next
/// push — the producer's `mark_data_available` hands back exactly the
/// parked handle — and the resumed demand finds the queue non-empty and
/// yields a sample rather than suspending again.
pub proof fn lemma_no_lost_wakeup<W>(w: WakeState<W>, h: W, q: Seq<u32>, s: Seq<u32>)
    requires
        w.spec_handle() == Some(h),
        !w.spec_has_data(),
        !w.spec_shutdown(),
        q.len() == 0,
        s.len() > 0,
    ensures
        taken_handle(w.spec_handle(), w.spec_has_data()) == Some(h),
        push_result(q, s).len() > 0,
        poll_decision(w.spec_shutdown(), push_result(q, s)) == PollOutcome::Sample(
            push_result(q, s)[0],
        ),
{
    assert(q + s =~= s);
}

} // verus!
