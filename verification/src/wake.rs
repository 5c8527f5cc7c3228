//! The wake coordinator shared between the producer and the consumer.
//!
//! A single record holds the shutdown flag, the "data available" flag, and
//! at most one stored continuation handle. The handle type is a parameter:
//! the surroundings instantiate it with their scheduler's waker and invoke a
//! handle only after the lock around this record is released — every
//! operation here returns rather than invokes. The shutdown flag is
//! monotonic: no operation ever resets it.

use vstd::prelude::*;

verus! {

/// The handle a call of `mark_data_available` hands back to be invoked: the
/// stored one exactly when the consumer had marked "no data", none otherwise.
pub open spec fn taken_handle<W>(stored: Option<W>, has_data: bool) -> Option<W> {
    if has_data {
        None
    } else {
        stored
    }
}

/// Shared wake record: one optional continuation handle, the "data
/// available" flag, and the monotonic shutdown flag.
pub struct WakeState<W> {
    handle: Option<W>,
    has_data: bool,
    shutdown: bool,
}

impl<W> WakeState<W> {
    /// The stored continuation handle, if a consumer is parked.
    pub closed spec fn spec_handle(&self) -> Option<W> {
        self.handle
    }

    /// Whether the producer has flagged data since the consumer last
    /// observed emptiness.
    pub closed spec fn spec_has_data(&self) -> bool {
        self.has_data
    }

    /// Whether shutdown has been signaled.
    pub closed spec fn spec_shutdown(&self) -> bool {
        self.shutdown
    }

    /// A fresh record: no handle, no data, not shut down.
    pub fn new() -> (w: WakeState<W>)
        ensures
            w.spec_handle() is None,
            !w.spec_has_data(),
            !w.spec_shutdown(),
    {
        WakeState { handle: None, has_data: false, shutdown: false }
    }

    /// Reads the shutdown flag.
    pub fn is_shutdown(&self) -> (r: bool)
        ensures
            r == self.spec_shutdown(),
    {
        self.shutdown
    }

    /// The producer's signal after a successful push: flags data available
    /// and, if the consumer had marked "no data" and parked a handle, removes
    /// and returns that handle so the caller can invoke it outside the lock.
    /// Idempotent per refill: while the flag is already set, nothing is
    /// returned.
    pub fn mark_data_available(&mut self) -> (to_wake: Option<W>)
        ensures
            to_wake == taken_handle(old(self).spec_handle(), old(self).spec_has_data()),
            final(self).spec_has_data(),
            final(self).spec_shutdown() == old(self).spec_shutdown(),
            old(self).spec_has_data() ==> final(self).spec_handle() == old(self).spec_handle(),
            !old(self).spec_has_data() ==> final(self).spec_handle() is None,
    {
        if !self.has_data {
            self.has_data = true;
            self.handle.take()
        } else {
            None
        }
    }

    /// The consumer's registration after observing an empty queue: unless
    /// shutdown has been signaled, marks "no data" and parks `handle`,
    /// returning `false`; under shutdown it stores nothing and returns
    /// `true`, and the caller ends the sequence instead of suspending.
    pub fn register(&mut self, handle: W) -> (ended: bool)
        ensures
            ended == old(self).spec_shutdown(),
            final(self).spec_shutdown() == old(self).spec_shutdown(),
            old(self).spec_shutdown() ==> *final(self) == *old(self),
            !old(self).spec_shutdown() ==> !final(self).spec_has_data()
                && final(self).spec_handle() == Some(handle),
    {
        if self.shutdown {
            true
        } else {
            self.has_data = false;
            self.handle = Some(handle);
            false
        }
    }

    /// Signals shutdown. The flag is monotonic: it is only ever set, and no
    /// operation of this record resets it. A handle still stored is left in
    /// place; `register` stores nothing once the flag is set, and the
    /// consumer checks the flag on every demand rather than assuming that
    /// being woken implies live data.
    pub fn signal_shutdown(&mut self)
        ensures
            final(self).spec_shutdown(),
            final(self).spec_handle() == old(self).spec_handle(),
            final(self).spec_has_data() == old(self).spec_has_data(),
    {
        self.shutdown = true;
    }
}

} // verus!
