//! The echo/heartbeat loop's decision logic.
//!
//! Each iteration of the loop is one event: a datagram arrived, the receive
//! timed out with nothing to do, or the receive faulted. The service decides,
//! for each event, which datagrams to send and how the session state changes.
//! The caller performs the actual receives and sends; the decisions here are
//! total functions of the event and the current state, and the spec-level
//! transition [`spec_step`] is their single definition.

use vstd::prelude::*;

use crate::endpoint::Endpoint;
use crate::session::{spec_heartbeat_due, SessionTracker};

verus! {

/// Number of bytes in a heartbeat datagram.
pub const HEARTBEAT_LEN: usize = 10;

/// The byte every position of a heartbeat datagram is filled with.
pub const HEARTBEAT_BYTE: u8 = 4;

/// The default heartbeat interval, in milliseconds.
pub const DEFAULT_HEARTBEAT_INTERVAL_MILLIS: u64 = 1000;

/// Capacity of the receive buffer: the largest datagram the service accepts.
pub const MAX_DATAGRAM_SIZE: usize = 1024;

/// The heartbeat payload: [`HEARTBEAT_LEN`] bytes, every one [`HEARTBEAT_BYTE`].
pub open spec fn spec_heartbeat_payload() -> Seq<u8> {
    Seq::new(HEARTBEAT_LEN as nat, |i: int| HEARTBEAT_BYTE)
}

/// Build the heartbeat payload.
pub fn heartbeat_payload() -> (v: Vec<u8>)
    ensures
        v@ == spec_heartbeat_payload(),
{
    let mut v: Vec<u8> = Vec::new();
    while v.len() < HEARTBEAT_LEN
        invariant
            v@.len() <= HEARTBEAT_LEN,
            forall|i: int| 0 <= i < v@.len() ==> v@[i] == HEARTBEAT_BYTE,
        decreases HEARTBEAT_LEN - v.len(),
    {
        v.push(HEARTBEAT_BYTE);
    }
    proof {
        assert(v@ =~= spec_heartbeat_payload());
    }
    v
}

/// A datagram to be sent, as the specifications see it: a destination and the
/// payload bytes.
pub struct Packet {
    pub dest: Endpoint,
    pub payload: Seq<u8>,
}

/// A datagram the service asks its caller to send.
#[derive(Clone, Debug)]
pub struct Outbound {
    pub dest: Endpoint,
    pub payload: Vec<u8>,
}

impl View for Outbound {
    type V = Packet;

    open spec fn view(&self) -> Packet {
        Packet { dest: self.dest, payload: self.payload@ }
    }
}

/// The packets a batch of outbound datagrams stands for.
pub open spec fn packets_of(out: Seq<Outbound>) -> Seq<Packet> {
    out.map_values(|o: Outbound| o@)
}

/// Whether the loop is serving or has stopped for good.
#[derive(Clone, Copy, PartialEq, Eq, Structural, Debug)]
pub enum ServiceStatus {
    /// Normal operation, the only state in which events are handled.
    Running,
    /// Terminal: entered on a receive fault, never left.
    Stopped,
}

/// One iteration's event, as the specifications see it.
pub enum Event {
    /// A datagram of `payload` arrived from `sender` at time `now`.
    Datagram { payload: Seq<u8>, sender: Endpoint, now: u64 },
    /// The receive timed out at time `now` with no datagram.
    Idle { now: u64 },
    /// The receive faulted; the loop stops.
    ReceiveFault,
}

/// The session-tracking echo/heartbeat service: its session tracker, whether
/// it is still running, and the configured heartbeat interval in
/// milliseconds.
pub struct Service {
    pub tracker: SessionTracker,
    pub status: ServiceStatus,
    pub heartbeat_interval: u64,
}

/// The transition the service makes on one event: the next state, and the
/// datagrams sent during the step, in the order they are sent.
///
/// While running: a received datagram is echoed byte-for-byte to its sender,
/// the sender becomes the tracked peer, and then — exactly as after an idle
/// timeout — a heartbeat is sent to the tracked peer if one is due, which
/// re-anchors the heartbeat timer at `now`. A receive fault stops the
/// service. Once stopped, nothing happens.
pub open spec fn spec_step(s: Service, e: Event) -> (Service, Seq<Packet>) {
    if s.status is Stopped {
        (s, Seq::empty())
    } else {
        match e {
            Event::Datagram { payload, sender, now } => {
                let seen = SessionTracker {
                    last_seen: Some(sender),
                    last_heartbeat_at: s.tracker.last_heartbeat_at,
                };
                let echo = Packet { dest: sender, payload };
                if spec_heartbeat_due(seen, now, s.heartbeat_interval) {
                    (
                        Service {
                            tracker: SessionTracker { last_heartbeat_at: now, ..seen },
                            ..s
                        },
                        seq![echo, Packet { dest: sender, payload: spec_heartbeat_payload() }],
                    )
                } else {
                    (Service { tracker: seen, ..s }, seq![echo])
                }
            },
            Event::Idle { now } => {
                if spec_heartbeat_due(s.tracker, now, s.heartbeat_interval) {
                    (
                        Service {
                            tracker: SessionTracker { last_heartbeat_at: now, ..s.tracker },
                            ..s
                        },
                        seq![
                            Packet {
                                dest: s.tracker.last_seen->0,
                                payload: spec_heartbeat_payload(),
                            },
                        ],
                    )
                } else {
                    (s, Seq::empty())
                }
            },
            Event::ReceiveFault => (Service { status: ServiceStatus::Stopped, ..s }, Seq::empty()),
        }
    }
}

impl Service {
    /// A fresh service: no peer seen, running, with the heartbeat timer
    /// anchored at the start time.
    pub fn new(heartbeat_interval: u64, start: u64) -> (s: Service)
        ensures
            s.tracker.last_seen is None,
            s.tracker.last_heartbeat_at == start,
            s.status is Running,
            s.heartbeat_interval == heartbeat_interval,
    {
        Service {
            tracker: SessionTracker::new(start),
            status: ServiceStatus::Running,
            heartbeat_interval,
        }
    }

    /// Handle a datagram of `payload` received from `sender` at time `now`.
    ///
    /// The returned datagrams are to be sent in order. The first is always
    /// the echo: `payload` byte-for-byte, back to `sender`. The second, when
    /// a heartbeat has become due, is the heartbeat — also to `sender`, who
    /// has just become the tracked peer.
    pub fn on_datagram(&mut self, payload: &[u8], sender: Endpoint, now: u64) -> (out: Vec<
        Outbound,
    >)
        requires
            old(self).status is Running,
        ensures
            *final(self) == spec_step(*old(self), Event::Datagram { payload: payload@, sender, now }).0,
            packets_of(out@) == spec_step(
                *old(self),
                Event::Datagram { payload: payload@, sender, now },
            ).1,
            out@.len() == spec_step(
                *old(self),
                Event::Datagram { payload: payload@, sender, now },
            ).1.len(),
            forall|i: int|
                0 <= i < out@.len() ==> #[trigger] out@[i]@ == spec_step(
                    *old(self),
                    Event::Datagram { payload: payload@, sender, now },
                ).1[i],
            out@.len() >= 1,
            out@[0]@.dest == sender,
            out@[0]@.payload == payload@,
            final(self).tracker.last_seen == Some(sender),
    {
        let ghost e = Event::Datagram { payload: payload@, sender, now };
        let mut out: Vec<Outbound> = Vec::new();
        out.push(Outbound { dest: sender, payload: vstd::slice::slice_to_vec(payload) });
        self.tracker.record_activity(sender);
        if self.tracker.heartbeat_due(now, self.heartbeat_interval) {
            out.push(Outbound { dest: sender, payload: heartbeat_payload() });
            self.tracker.mark_heartbeat_sent(now);
        }
        proof {
            assert(packets_of(out@) =~~= spec_step(*old(self), e).1);
        }
        out
    }

    /// Handle a receive timeout at time `now`: send a heartbeat to the
    /// tracked peer if one is due, else do nothing. No peer, no heartbeat.
    pub fn on_idle(&mut self, now: u64) -> (out: Vec<Outbound>)
        requires
            old(self).status is Running,
        ensures
            *final(self) == spec_step(*old(self), Event::Idle { now }).0,
            packets_of(out@) == spec_step(*old(self), Event::Idle { now }).1,
            out@.len() == spec_step(*old(self), Event::Idle { now }).1.len(),
            forall|i: int|
                0 <= i < out@.len() ==> #[trigger] out@[i]@ == spec_step(
                    *old(self),
                    Event::Idle { now },
                ).1[i],
            old(self).tracker.last_seen is None ==> out@.len() == 0,
    {
        let ghost e = Event::Idle { now };
        let mut out: Vec<Outbound> = Vec::new();
        if self.tracker.heartbeat_due(now, self.heartbeat_interval) {
            match self.tracker.last_seen {
                Some(peer) => {
                    out.push(Outbound { dest: peer, payload: heartbeat_payload() });
                    self.tracker.mark_heartbeat_sent(now);
                },
                None => {},
            }
        }
        proof {
            assert(packets_of(out@) =~~= spec_step(*old(self), e).1);
        }
        out
    }

    /// Handle a receive fault: the loop stops, the session state is kept as
    /// it was. Nothing is sent.
    pub fn on_receive_fault(&mut self)
        ensures
            *final(self) == spec_step(*old(self), Event::ReceiveFault).0,
            final(self).status is Stopped,
            final(self).tracker == old(self).tracker,
    {
        self.status = ServiceStatus::Stopped;
    }
}

/// The transport fault taxonomy: binding the socket failed, a receive
/// faulted, or a send faulted.
#[derive(Clone, Copy, PartialEq, Eq, Structural, Debug)]
pub enum TransportError {
    /// The local address could not be bound; raised once at startup.
    Bind,
    /// A receive faulted; the loop stops.
    Receive,
    /// A send (echo or heartbeat) faulted; only that datagram is lost.
    Send,
}

impl TransportError {
    /// Whether the fault ends the service: a bind failure is fatal at
    /// startup, a receive fault stops the loop, and a send fault only loses
    /// the one datagram — the loop goes on.
    pub fn is_fatal(&self) -> (fatal: bool)
        ensures
            fatal == (*self is Bind || *self is Receive),
    {
        match self {
            TransportError::Bind => true,
            TransportError::Receive => true,
            TransportError::Send => false,
        }
    }
}

} // verus!
