use echo_heartbeat::endpoint::Endpoint;
use echo_heartbeat::service::{
    heartbeat_payload, Service, ServiceStatus, TransportError, HEARTBEAT_BYTE, HEARTBEAT_LEN,
    MAX_DATAGRAM_SIZE,
};
use echo_heartbeat::session::SessionTracker;
use echo_heartbeat::GameState;

fn peer_a() -> Endpoint {
    Endpoint::V4 { ip: 0x7f000001, port: 40001 }
}

fn peer_b() -> Endpoint {
    Endpoint::V4 { ip: 0x7f000001, port: 40002 }
}

fn peer_v6() -> Endpoint {
    Endpoint::V6 { ip: 1, port: 40003 }
}

#[test]
fn echo_returns_payload_verbatim() {
    let mut s = Service::new(1000, 0);
    let out = s.on_datagram(b"hello", peer_a(), 100);
    assert_eq!(out.len(), 1);
    assert_eq!(out[0].dest, peer_a());
    assert_eq!(out[0].payload, b"hello".to_vec());
}

#[test]
fn echo_empty_payload() {
    let mut s = Service::new(1000, 0);
    let out = s.on_datagram(b"", peer_a(), 100);
    assert_eq!(out.len(), 1);
    assert_eq!(out[0].dest, peer_a());
    assert_eq!(out[0].payload.len(), 0);
}

#[test]
fn echo_max_size_payload() {
    let mut s = Service::new(1000, 0);
    let payload = vec![0xabu8; MAX_DATAGRAM_SIZE];
    let out = s.on_datagram(&payload, peer_v6(), 100);
    assert_eq!(out.len(), 1);
    assert_eq!(out[0].dest, peer_v6());
    assert_eq!(out[0].payload, payload);
}

#[test]
fn heartbeat_payload_is_ten_bytes_of_four() {
    let hb = heartbeat_payload();
    assert_eq!(hb.len(), HEARTBEAT_LEN);
    assert_eq!(hb, vec![HEARTBEAT_BYTE; 10]);
    assert_eq!(hb, vec![4u8; 10]);
}

#[test]
fn heartbeat_after_interval_targets_sender() {
    let mut s = Service::new(1000, 0);
    let out = s.on_datagram(b"ping me", peer_a(), 0);
    assert_eq!(out.len(), 1);
    let out = s.on_idle(999);
    assert!(out.is_empty());
    let out = s.on_idle(1000);
    assert_eq!(out.len(), 1);
    assert_eq!(out[0].dest, peer_a());
    assert_eq!(out[0].payload, vec![4u8; 10]);
}

#[test]
fn heartbeat_fires_at_exactly_elapsed_interval() {
    let mut t = SessionTracker::new(500);
    t.record_activity(peer_a());
    assert!(!t.heartbeat_due(1499, 1000));
    assert!(t.heartbeat_due(1500, 1000));
    assert!(t.heartbeat_due(1501, 1000));
}

#[test]
fn peer_replacement_heartbeats_to_newest_peer() {
    let mut s = Service::new(1000, 0);
    s.on_datagram(b"from a", peer_a(), 0);
    s.on_datagram(b"from b", peer_b(), 10);
    let out = s.on_idle(1010);
    assert_eq!(out.len(), 1);
    assert_eq!(out[0].dest, peer_b());
    assert_ne!(out[0].dest, peer_a());
}

#[test]
fn datagram_from_new_peer_heartbeats_to_new_peer() {
    let mut s = Service::new(1000, 0);
    s.on_datagram(b"from a", peer_a(), 0);
    let out = s.on_datagram(b"from b", peer_b(), 2000);
    assert_eq!(out.len(), 2);
    assert_eq!(out[0].dest, peer_b());
    assert_eq!(out[0].payload, b"from b".to_vec());
    assert_eq!(out[1].dest, peer_b());
    assert_eq!(out[1].payload, vec![4u8; 10]);
}

#[test]
fn no_heartbeat_before_first_contact() {
    let mut s = Service::new(1000, 0);
    assert!(s.on_idle(1000).is_empty());
    assert!(s.on_idle(1_000_000).is_empty());
    assert!(s.on_idle(u64::MAX).is_empty());
    assert!(s.tracker.last_seen.is_none());
}

#[test]
fn end_to_end_echo_then_heartbeat_then_echo() {
    let mut s = Service::new(1000, 0);
    let out = s.on_datagram(b"hello", peer_a(), 0);
    assert_eq!(out.len(), 1);
    assert_eq!(out[0].payload, b"hello".to_vec());
    let out = s.on_idle(1000);
    assert_eq!(out.len(), 1);
    assert_eq!(out[0].payload, vec![4u8; 10]);
    assert_eq!(s.tracker.last_heartbeat_at, 1000);
    let out = s.on_datagram(b"hi", peer_a(), 1100);
    assert_eq!(out.len(), 1);
    assert_eq!(out[0].payload, b"hi".to_vec());
    assert!(s.on_idle(1999).is_empty());
    assert_eq!(s.on_idle(2000).len(), 1);
}

#[test]
fn receive_fault_stops_service_and_keeps_session() {
    let mut s = Service::new(1000, 0);
    s.on_datagram(b"x", peer_a(), 0);
    s.on_receive_fault();
    assert_eq!(s.status, ServiceStatus::Stopped);
    assert_eq!(s.tracker.last_seen, Some(peer_a()));
    assert_eq!(s.tracker.last_heartbeat_at, 0);
}

#[test]
fn fault_taxonomy_fatality() {
    assert!(TransportError::Bind.is_fatal());
    assert!(TransportError::Receive.is_fatal());
    assert!(!TransportError::Send.is_fatal());
}

#[test]
fn session_tracker_records_latest_peer_only() {
    let mut t = SessionTracker::new(7);
    assert!(t.last_seen.is_none());
    assert_eq!(t.last_heartbeat_at, 7);
    t.record_activity(peer_a());
    assert_eq!(t.last_seen, Some(peer_a()));
    assert_eq!(t.last_heartbeat_at, 7);
    t.record_activity(peer_b());
    assert_eq!(t.last_seen, Some(peer_b()));
    t.mark_heartbeat_sent(42);
    assert_eq!(t.last_heartbeat_at, 42);
    assert_eq!(t.last_seen, Some(peer_b()));
}

#[test]
fn heartbeat_timestamps_nondecreasing_across_run() {
    let mut s = Service::new(1000, 5);
    let mut previous = s.tracker.last_heartbeat_at;
    s.on_datagram(b"a", peer_a(), 100);
    assert!(s.tracker.last_heartbeat_at >= previous);
    previous = s.tracker.last_heartbeat_at;
    s.on_idle(1200);
    assert!(s.tracker.last_heartbeat_at >= previous);
    previous = s.tracker.last_heartbeat_at;
    s.on_datagram(b"b", peer_b(), 3000);
    assert!(s.tracker.last_heartbeat_at >= previous);
    previous = s.tracker.last_heartbeat_at;
    s.on_idle(3100);
    assert!(s.tracker.last_heartbeat_at >= previous);
}

#[test]
fn no_heartbeat_when_clock_reads_before_anchor() {
    let mut t = SessionTracker::new(1000);
    t.record_activity(peer_a());
    assert!(!t.heartbeat_due(500, 100));
    assert!(!t.heartbeat_due(999, 0));
    assert!(t.heartbeat_due(1000, 0));
}

#[test]
fn game_state_default_is_game() {
    assert_eq!(GameState::default(), GameState::Game);
    assert_ne!(GameState::Game, GameState::Menu);
}
