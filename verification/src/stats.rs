//! Message counters for the pub/sub session.
//!
//! Four counters — sent, received, processed, rejected — grow monotonically
//! for the life of the process and are reported in every heartbeat payload
//! together with their sum.  Each increment saturates at the counter's
//! maximum instead of wrapping.

use vstd::prelude::*;

verus! {

/// `n + 1`, saturating at the largest `u64`.
pub open spec fn spec_inc(n: u64) -> u64 {
    if n == u64::MAX {
        n
    } else {
        (n + 1) as u64
    }
}

/// `a + b`, saturating at the largest `u64`.
pub open spec fn spec_sat_add(a: u64, b: u64) -> u64 {
    if a + b > u64::MAX {
        u64::MAX
    } else {
        (a + b) as u64
    }
}

/// `a + b + c + d`, saturating at the largest `u64`.
pub open spec fn spec_sat_sum4(a: u64, b: u64, c: u64, d: u64) -> u64 {
    if a + b + c + d > u64::MAX {
        u64::MAX
    } else {
        (a + b + c + d) as u64
    }
}

/// The session's message counters.
#[derive(Debug, Clone, Copy, PartialEq, Eq, Structural)]
pub struct ConnectionStats {
    /// Messages published to the broker.
    pub sent: u64,
    /// Messages received from the broker, whatever their outcome.
    pub received: u64,
    /// Received messages that decoded into an output command.
    pub processed: u64,
    /// Received messages whose topic or payload failed to decode.
    pub rejected: u64,
}

/// One heartbeat's view of the counters, with their total.
#[derive(Debug, Clone, Copy, PartialEq, Eq, Structural)]
pub struct HeartbeatStats {
    /// Messages published to the broker.
    pub sent: u64,
    /// Messages received from the broker.
    pub received: u64,
    /// Received messages that decoded into an output command.
    pub processed: u64,
    /// Received messages that failed to decode.
    pub rejected: u64,
    /// The sum of the four counters.
    pub total: u64,
}

impl ConnectionStats {
    /// The counters as a heartbeat reports them, with the sum of all four
    /// as the total.
    pub open spec fn spec_snapshot(&self) -> HeartbeatStats {
        HeartbeatStats {
            sent: self.sent,
            received: self.received,
            processed: self.processed,
            rejected: self.rejected,
            total: spec_sat_sum4(self.sent, self.received, self.processed, self.rejected),
        }
    }

    /// All counters start at zero.
    pub fn new() -> (s: ConnectionStats)
        ensures
            s == (ConnectionStats { sent: 0, received: 0, processed: 0, rejected: 0 }),
    {
        ConnectionStats { sent: 0, received: 0, processed: 0, rejected: 0 }
    }

    /// Counts one message published to the broker.
    pub fn record_sent(&mut self)
        ensures
            *final(self) == (ConnectionStats { sent: spec_inc(old(self).sent), ..*old(self) }),
    {
        self.sent = saturating_inc(self.sent);
    }

    /// Counts one message received from the broker.
    pub fn record_received(&mut self)
        ensures
            *final(self) == (ConnectionStats {
                received: spec_inc(old(self).received),
                ..*old(self)
            }),
    {
        self.received = saturating_inc(self.received);
    }

    /// Counts one received message that decoded into an output command.
    pub fn record_processed(&mut self)
        ensures
            *final(self) == (ConnectionStats {
                processed: spec_inc(old(self).processed),
                ..*old(self)
            }),
    {
        self.processed = saturating_inc(self.processed);
    }

    /// Counts one received message that failed to decode.
    pub fn record_rejected(&mut self)
        ensures
            *final(self) == (ConnectionStats {
                rejected: spec_inc(old(self).rejected),
                ..*old(self)
            }),
    {
        self.rejected = saturating_inc(self.rejected);
    }

    /// The counters as a heartbeat reports them, with the sum of all four
    /// as the total.
    pub fn snapshot(&self) -> (h: HeartbeatStats)
        ensures
            h == self.spec_snapshot(),
    {
        let total = saturating_add(
            saturating_add(saturating_add(self.sent, self.received), self.processed),
            self.rejected,
        );
        HeartbeatStats {
            sent: self.sent,
            received: self.received,
            processed: self.processed,
            rejected: self.rejected,
            total,
        }
    }
}

/// `n + 1`, saturating at the largest `u64`.
fn saturating_inc(n: u64) -> (r: u64)
    ensures
        r == spec_inc(n),
{
    if n == u64::MAX {
        n
    } else {
        n + 1
    }
}

/// `a + b`, saturating at the largest `u64`.
fn saturating_add(a: u64, b: u64) -> (r: u64)
    ensures
        r == spec_sat_add(a, b),
{
    if a > u64::MAX - b {
        u64::MAX
    } else {
        a + b
    }
}

} // verus!
