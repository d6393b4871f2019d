//! The peer session tracker: the most recently seen peer and the heartbeat
//! timer.

use vstd::prelude::*;

use crate::endpoint::Endpoint;

verus! {

/// Tracks the single most recently seen peer and the time of the last
/// heartbeat. Timestamps are plain milliseconds read from a monotonic clock
/// by the caller; the tracker only compares and stores them.
///
/// `last_seen` is `None` only before the first datagram is ever received;
/// every received datagram overwrites it — it is never cleared. Heartbeats
/// are only ever addressed to the peer it names, so before first contact no
/// heartbeat can be sent.
pub struct SessionTracker {
    /// The sender of the most recently received datagram, or `None` if no
    /// datagram has ever been received.
    pub last_seen: Option<Endpoint>,
    /// When the last heartbeat was sent, in milliseconds; at service start
    /// this is the start time itself.
    pub last_heartbeat_at: u64,
}

/// Whether a heartbeat is owed at time `now`: some peer has been seen, and at
/// least `interval` milliseconds have elapsed since the last heartbeat. The
/// comparison is `>=`, so an exactly elapsed interval already triggers.
pub open spec fn spec_heartbeat_due(t: SessionTracker, now: u64, interval: u64) -> bool {
    t.last_seen is Some && now - t.last_heartbeat_at >= interval
}

impl SessionTracker {
    /// A fresh tracker at service start: no peer seen yet, and the heartbeat
    /// timer anchored at the start time.
    pub fn new(start: u64) -> (t: SessionTracker)
        ensures
            t.last_seen is None,
            t.last_heartbeat_at == start,
    {
        SessionTracker { last_seen: None, last_heartbeat_at: start }
    }

    /// Record that a datagram was just received from `sender`: it becomes the
    /// most recently seen peer, whoever was tracked before. The heartbeat
    /// timer is not touched.
    pub fn record_activity(&mut self, sender: Endpoint)
        ensures
            final(self).last_seen == Some(sender),
            final(self).last_heartbeat_at == old(self).last_heartbeat_at,
    {
        self.last_seen = Some(sender);
    }

    /// Decide whether a heartbeat is due at time `now`, with the given
    /// interval in milliseconds.
    pub fn heartbeat_due(&self, now: u64, interval: u64) -> (due: bool)
        ensures
            due == spec_heartbeat_due(*self, now, interval),
    {
        self.last_seen.is_some() && now >= self.last_heartbeat_at && now - self.last_heartbeat_at
            >= interval
    }

    /// Record that a heartbeat was just sent at time `now`: the timer is
    /// re-anchored there. The tracked peer is not touched.
    pub fn mark_heartbeat_sent(&mut self, now: u64)
        ensures
            final(self).last_heartbeat_at == now,
            final(self).last_seen == old(self).last_seen,
    {
        self.last_heartbeat_at = now;
    }
}

} // verus!
