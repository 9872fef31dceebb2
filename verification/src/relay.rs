use vstd::prelude::*;

verus! {

/// What ended a relay, with the byte totals the telemetry close record
/// carries: bytes copied from the source toward the destination and back.
#[derive(Clone, Copy, PartialEq, Eq, Structural, Debug)]
pub struct RelayEnd {
    pub failed: bool,
    pub sent: u64,
    pub received: u64,
}

/// Running byte counters for one relay, updated chunk by chunk while bytes
/// copy. They saturate rather than wrap: a counter that has reached its
/// width stays pinned there instead of restarting the tally.
#[derive(Clone, Copy, PartialEq, Eq, Structural, Debug)]
pub struct BytesTransferred {
    pub sent: u64,
    pub received: u64,
}

impl BytesTransferred {
    /// Counters for a relay that has copied nothing yet.
    pub fn new() -> (r: BytesTransferred)
        ensures
            r.sent == 0,
            r.received == 0,
    {
        BytesTransferred { sent: 0, received: 0 }
    }

    /// Counts one chunk copied from the source toward the destination.
    pub fn record_sent(&mut self, n: u64)
        ensures
            final(self).sent == (if old(self).sent + n <= u64::MAX {
                old(self).sent + n
            } else {
                u64::MAX as int
            }),
            final(self).received == old(self).received,
    {
        self.sent = if n <= u64::MAX - self.sent {
            self.sent + n
        } else {
            u64::MAX
        };
    }

    /// Counts one chunk copied from the destination back to the source.
    pub fn record_received(&mut self, n: u64)
        ensures
            final(self).received == (if old(self).received + n <= u64::MAX {
                old(self).received + n
            } else {
                u64::MAX as int
            }),
            final(self).sent == old(self).sent,
    {
        self.received = if n <= u64::MAX - self.received {
            self.received + n
        } else {
            u64::MAX
        };
    }

    /// The totals a finished relay reports into its lifecycle.
    pub fn into_end(self, failed: bool) -> (r: RelayEnd)
        ensures
            r.failed == failed,
            r.sent == self.sent,
            r.received == self.received,
    {
        RelayEnd { failed, sent: self.sent, received: self.received }
    }
}

} // verus!
