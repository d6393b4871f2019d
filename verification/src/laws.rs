//! Laws of the service: properties of whole runs, proved once and for all
//! over the spec-level transition [`spec_step`].

use vstd::prelude::*;

use crate::endpoint::Endpoint;
use crate::service::{spec_heartbeat_payload, spec_step, Event, Packet, Service};

verus! {

/// The state the service reaches after handling `events` in order, starting
/// from `s`.
pub open spec fn spec_run(s: Service, events: Seq<Event>) -> Service
    decreases events.len(),
{
    if events.len() == 0 {
        s
    } else {
        spec_run(spec_step(s, events[0]).0, events.drop_first())
    }
}

/// Every datagram the service sends while handling `events` in order,
/// starting from `s`.
pub open spec fn spec_run_outputs(s: Service, events: Seq<Event>) -> Seq<Packet>
    decreases events.len(),
{
    if events.len() == 0 {
        Seq::empty()
    } else {
        spec_step(s, events[0]).1 + spec_run_outputs(spec_step(s, events[0]).0, events.drop_first())
    }
}

/// The heartbeat timer never moves backwards in one step: `last_heartbeat_at`
/// only changes when a heartbeat is due, and a due heartbeat means at least
/// the (non-negative) interval has elapsed since the timer was last anchored.
pub proof fn lemma_step_heartbeat_time_monotonic(s: Service, e: Event)
    ensures
        spec_step(s, e).0.tracker.last_heartbeat_at >= s.tracker.last_heartbeat_at,
{
}

/// `last_heartbeat_at` is non-decreasing across the whole lifetime of a
/// session: whatever events arrive, in whatever order and at whatever times,
/// the timer of the final state is at or after the timer of the start state.
pub proof fn lemma_run_heartbeat_time_monotonic(s: Service, events: Seq<Event>)
    ensures
        spec_run(s, events).tracker.last_heartbeat_at >= s.tracker.last_heartbeat_at,
    decreases events.len(),
{
    if events.len() > 0 {
        lemma_step_heartbeat_time_monotonic(s, events[0]);
        lemma_run_heartbeat_time_monotonic(spec_step(s, events[0]).0, events.drop_first());
    }
}

/// Once some peer has been seen, one is tracked forever after: no step ever
/// clears `last_seen`.
pub proof fn lemma_last_seen_never_cleared(s: Service, e: Event)
    requires
        s.tracker.last_seen is Some,
    ensures
        spec_step(s, e).0.tracker.last_seen is Some,
{
}

/// No heartbeat before first contact: as long as no datagram has ever been
/// received, nothing at all is sent, however much time elapses — there is no
/// address to send to.
pub proof fn lemma_no_heartbeat_before_first_contact(s: Service, events: Seq<Event>)
    requires
        s.tracker.last_seen is None,
        forall|i: int| 0 <= i < events.len() ==> !(events[i] is Datagram),
    ensures
        spec_run_outputs(s, events) == Seq::<Packet>::empty(),
        spec_run(s, events).tracker.last_seen is None,
    decreases events.len(),
{
    if events.len() > 0 {
        let s1 = spec_step(s, events[0]).0;
        assert(spec_step(s, events[0]).1 =~= Seq::<Packet>::empty());
        assert(forall|i: int|
            0 <= i < events.drop_first().len() ==> !(events.drop_first()[i] is Datagram));
        lemma_no_heartbeat_before_first_contact(s1, events.drop_first());
        assert(spec_run_outputs(s, events) =~= Seq::<Packet>::empty());
    }
}

/// `Stopped` is terminal: once the service has stopped, no run of further
/// events changes its state or sends anything.
pub proof fn lemma_stopped_is_terminal(s: Service, events: Seq<Event>)
    requires
        s.status is Stopped,
    ensures
        spec_run(s, events) == s,
        spec_run_outputs(s, events) == Seq::<Packet>::empty(),
    decreases events.len(),
{
    if events.len() > 0 {
        lemma_stopped_is_terminal(s, events.drop_first());
        assert(spec_run_outputs(s, events) =~= Seq::<Packet>::empty());
    }
}

/// Heartbeat targeting: while a peer is tracked and at least one interval has
/// elapsed since the last heartbeat, an idle check sends exactly one
/// datagram — the fixed heartbeat payload, addressed to the tracked peer —
/// and keeps tracking that peer.
pub proof fn lemma_heartbeat_targets_tracked_peer(s: Service, now: u64)
    requires
        s.status is Running,
        s.tracker.last_seen is Some,
        now - s.tracker.last_heartbeat_at >= s.heartbeat_interval,
    ensures
        spec_step(s, Event::Idle { now }).1 == seq![
            Packet { dest: s.tracker.last_seen->0, payload: spec_heartbeat_payload() },
        ],
        spec_step(s, Event::Idle { now }).0.tracker.last_seen == s.tracker.last_seen,
        spec_step(s, Event::Idle { now }).0.tracker.last_heartbeat_at == now,
{
}

/// Peer replacement: after a datagram from `a` and then a datagram from `b`,
/// the tracked peer is `b`, and whatever a following step sends goes to the
/// sender of that step's own datagram or — for a heartbeat — to `b`; when `a`
/// and `b` differ, in particular, an idle-time heartbeat never goes to `a`.
pub proof fn lemma_peer_replacement(
    s: Service,
    pa: Seq<u8>,
    a: Endpoint,
    ta: u64,
    pb: Seq<u8>,
    b: Endpoint,
    tb: u64,
    now: u64,
)
    requires
        s.status is Running,
    ensures
        ({
            let s1 = spec_step(s, Event::Datagram { payload: pa, sender: a, now: ta }).0;
            let s2 = spec_step(s1, Event::Datagram { payload: pb, sender: b, now: tb }).0;
            &&& s2.tracker.last_seen == Some(b)
            &&& forall|p: Packet|
                spec_step(s2, Event::Idle { now }).1.contains(p) ==> p.dest == b
        }),
{
}

} // verus!
