//! The arrival record: when the latest inbound message came.
//!
//! Times are nanoseconds on a monotonic clock that the caller reads.

use vstd::prelude::*;

verus! {

/// The time from `earlier` to `later`, or zero where `later` is not after
/// `earlier`.
pub open spec fn elapsed_between(earlier: nat, later: nat) -> nat {
    if later >= earlier {
        (later - earlier) as nat
    } else {
        0
    }
}

/// The time of the most recent arrival. Before the first message it is the
/// time at which the session started.
#[derive(Clone, Copy, Debug, PartialEq, Eq)]
pub struct ArrivalRecord {
    last_nanos: u64,
}

impl View for ArrivalRecord {
    type V = nat;

    closed spec fn view(&self) -> nat {
        self.last_nanos as nat
    }
}

impl ArrivalRecord {
    /// A record for a session that starts at `now_nanos`.
    pub fn starting_at(now_nanos: u64) -> (record: ArrivalRecord)
        ensures
            record@ == now_nanos,
    {
        ArrivalRecord { last_nanos: now_nanos }
    }

    /// The time of the most recent arrival.
    pub fn last_nanos(&self) -> (last: u64)
        ensures
            last == self@,
    {
        self.last_nanos
    }

    /// Notes an arrival at `now_nanos` and returns the delay since the
    /// previous one.
    pub fn observe(&mut self, now_nanos: u64) -> (delay_nanos: u64)
        ensures
            delay_nanos == elapsed_between(old(self)@, now_nanos as nat),
            final(self)@ == now_nanos,
    {
        let delay_nanos: u64 = if now_nanos >= self.last_nanos {
            now_nanos - self.last_nanos
        } else {
            0
        };
        self.last_nanos = now_nanos;
        delay_nanos
    }
}

} // verus!
