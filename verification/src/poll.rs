//! The event relay for ring/perf buffer polling.
//!
//! A `BufferPoll` call polls a kernel event buffer until the caller's
//! timeout elapses or the guest callback signals early stop.  The embedding
//! runs the blocking poll loop; the decisions — how many payload bytes to
//! copy into the guest's scratch buffer, when to stop, and what count to
//! return — live here and are verified.

use vstd::prelude::*;

verus! {

/// The relay state of one `BufferPoll` call: how many events have been
/// delivered to the guest callback, and whether the callback asked to stop.
pub struct PollSession {
    delivered: i32,
    stopped: bool,
}

impl PollSession {
    /// Events delivered to the guest callback so far.
    pub closed spec fn delivered_count(self) -> int {
        self.delivered as int
    }

    /// The guest callback returned a negative value, ending the poll.
    pub closed spec fn is_stopped(self) -> bool {
        self.stopped
    }

    /// A fresh poll: nothing delivered, not stopped.  A poll whose timeout
    /// expires before any event arrives therefore returns 0 without ever
    /// invoking the callback.
    pub fn new() -> (s: Self)
        ensures
            s.delivered_count() == 0,
            !s.is_stopped(),
    {
        PollSession { delivered: 0, stopped: false }
    }

    /// Records that one event was copied out and the callback invoked.
    ///
    /// The delivered count rises by exactly one; polling stops exactly when
    /// the callback's return value is negative.
    pub fn on_sample(&mut self, callback_ret: i32)
        requires
            !old(self).is_stopped(),
            old(self).delivered_count() < i32::MAX,
        ensures
            final(self).delivered_count() == old(self).delivered_count() + 1,
            final(self).is_stopped() <==> callback_ret < 0,
    {
        self.delivered = self.delivered + 1;
        self.stopped = callback_ret < 0;
    }

    /// Whether the poll loop must stop before the timeout elapses.
    pub fn should_stop(&self) -> (b: bool)
        ensures
            b == self.is_stopped(),
    {
        self.stopped
    }

    /// The status returned to the guest: the count of events delivered,
    /// whether the poll ended by timeout or by early stop.  Starting from a
    /// fresh session this is never negative.
    pub fn result(&self) -> (r: i32)
        ensures
            r == self.delivered_count(),
    {
        self.delivered
    }
}

/// How many payload bytes of an event of `sample_len` bytes are copied into
/// a guest scratch buffer of `max_size` bytes: the payload is truncated to
/// the scratch size, never the other way around, and a non-positive scratch
/// size receives nothing.
pub fn copy_len(sample_len: usize, max_size: i32) -> (r: usize)
    ensures
        max_size <= 0 ==> r == 0,
        max_size > 0 && sample_len <= max_size ==> r == sample_len,
        max_size > 0 && sample_len > max_size ==> r == max_size,
        r <= sample_len,
        max_size >= 0 ==> r <= max_size,
{
    if max_size <= 0 {
        0
    } else if sample_len <= max_size as usize {
        sample_len
    } else {
        max_size as usize
    }
}

} // verus!
