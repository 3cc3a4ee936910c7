use cursedboard::connection::{
    Admission, ConnectionError, ConnectionManager, DialDecision, DropReason, PeerInfo, PeerState,
    RejectReason,
};
use cursedboard::discovery::DiscoveredPeer;
use cursedboard::instance::Instance;
use cursedboard::net::{IpAddress, SocketAddress};
use cursedboard::peer::{HandshakeStep, PeerConnection, PeerEvent, Role};
use cursedboard::protocol::{Message, ProtocolError};
use cursedboard::trust::{TrustStore, TrustedPeer};

const A: u128 = 1;
const B: u128 = 2;
const C: u128 = 3;

fn addr(last: u32) -> SocketAddress {
    SocketAddress::new(IpAddress::V4(0xc0a8_0100 + last), 42069)
}

fn manager(id: u128, group: &str) -> ConnectionManager {
    ConnectionManager::new(
        Instance::with_identity(id, Some(format!("host{}", id))),
        group.to_string(),
        "s".to_string(),
        TrustStore::new(),
    )
}

fn discovered(id: u128, group: &str) -> DiscoveredPeer {
    DiscoveredPeer {
        instance_id: id,
        device_name: format!("host{}", id),
        address: addr(id as u32),
        group: group.to_string(),
    }
}

#[test]
fn new_manager_is_empty() {
    let m = manager(A, "g");
    assert_eq!(m.instance_id(), A);
    assert_eq!(m.device_name(), "host1");
    assert_eq!(m.group(), "g");
    assert_eq!(m.psk(), "s");
    assert_eq!(m.peer_count(), 0);
    assert_eq!(m.peer_state(B), None);
    assert!(m.trust_store().is_empty());
    assert!(!m.pairing_active(0));
}

#[test]
fn self_discovery_is_ignored() {
    let mut m = manager(A, "g");
    assert_eq!(
        m.handle_discovered_peer(discovered(A, "g"), 0),
        DialDecision::Drop(DropReason::SelfDiscovery)
    );
    // Even with another group and with pairing on.
    m.enable_pairing(0, 5);
    assert_eq!(
        m.handle_discovered_peer(discovered(A, "other"), 1),
        DialDecision::Drop(DropReason::SelfDiscovery)
    );
    assert_eq!(m.peer_count(), 0);
}

#[test]
fn group_mismatch_without_pairing_is_dropped() {
    let mut a = manager(A, "x");
    let mut b = manager(B, "y");
    assert_eq!(
        a.handle_discovered_peer(discovered(B, "y"), 0),
        DialDecision::Drop(DropReason::GroupMismatch)
    );
    assert_eq!(
        b.handle_discovered_peer(discovered(A, "x"), 0),
        DialDecision::Drop(DropReason::GroupMismatch)
    );
    assert_eq!(a.peer_count(), 0);
    assert_eq!(b.peer_count(), 0);
    assert!(a.trust_store().is_empty());
}

#[test]
fn untrusted_peer_is_dropped_once_the_store_has_entries() {
    let mut store = TrustStore::new();
    store.trust(C, "cee".to_string(), 1);
    let mut m = ConnectionManager::new(
        Instance::with_identity(A, None),
        "g".to_string(),
        "s".to_string(),
        store,
    );
    assert_eq!(
        m.handle_discovered_peer(discovered(B, "g"), 0),
        DialDecision::Drop(DropReason::NotTrusted)
    );
    assert_eq!(
        m.handle_discovered_peer(discovered(C, "g"), 0),
        DialDecision::Dial { conn: 0, address: addr(3) }
    );
    assert_eq!(
        m.handle_handshake(5, Role::Inbound, addr(2), B, "bee".to_string(), 0),
        Admission::Rejected(RejectReason::NotTrusted)
    );
    assert!(!m.trust_store().is_trusted(&B));
}

#[test]
fn dial_registers_the_peer_as_connecting() {
    let mut m = manager(A, "g");
    assert_eq!(
        m.handle_discovered_peer(discovered(B, "g"), 0),
        DialDecision::Dial { conn: 0, address: addr(2) }
    );
    assert_eq!(m.peer_state(B), Some(PeerState::Connecting));
    assert_eq!(m.peer_connection(B), Some(0));
    assert_eq!(m.peer_count(), 1);
    // A second discovery of the same peer does not dial again.
    assert_eq!(
        m.handle_discovered_peer(discovered(B, "g"), 1),
        DialDecision::Drop(DropReason::AlreadyConnected)
    );
    assert_eq!(m.peer_count(), 1);
    // Another peer gets the next token.
    assert_eq!(
        m.handle_discovered_peer(discovered(C, "g"), 2),
        DialDecision::Dial { conn: 1, address: addr(3) }
    );
}

#[test]
fn failed_dial_frees_the_entry() {
    let mut m = manager(A, "g");
    let conn = match m.handle_discovered_peer(discovered(B, "g"), 0) {
        DialDecision::Dial { conn, .. } => conn,
        other => panic!("{:?}", other),
    };
    assert!(!m.handle_disconnect(B, conn + 1));
    assert_eq!(m.peer_state(B), Some(PeerState::Connecting));
    assert!(m.handle_disconnect(B, conn));
    assert_eq!(m.peer_state(B), None);
    assert!(!m.handle_disconnect(B, conn));
    // The peer can be dialed again.
    assert_eq!(
        m.handle_discovered_peer(discovered(B, "g"), 1),
        DialDecision::Dial { conn: 1, address: addr(2) }
    );
}

/// Two instances with a shared key; A discovers B and dials.
#[test]
fn two_peer_pair() {
    let mut a = manager(A, "g");
    let mut b = manager(B, "g");

    let (conn_a, address) = match a.handle_discovered_peer(discovered(B, "g"), 1000) {
        DialDecision::Dial { conn, address } => (conn, address),
        other => panic!("{:?}", other),
    };
    assert_eq!(address, addr(2));
    let conn_b = b.accept_connection().unwrap();

    let mut out = PeerConnection::outbound([0x55; 32]);
    let mut inc = PeerConnection::inbound();
    let hello_a = out.opening(a.instance_id(), a.device_name()).unwrap();
    let hello_b = match inc.handshake(b.instance_id(), b.device_name(), b.psk(), hello_a) {
        HandshakeStep::Send(m) => m,
        other => panic!("{:?}", other),
    };
    let auth_a = match out.handshake(a.instance_id(), a.device_name(), a.psk(), hello_b) {
        HandshakeStep::Send(m) => m,
        other => panic!("{:?}", other),
    };
    let (reply, id_at_b, name_at_b) =
        match inc.handshake(b.instance_id(), b.device_name(), b.psk(), auth_a) {
            HandshakeStep::Established { reply: Some(m), id, name } => (m, id, name),
            other => panic!("{:?}", other),
        };
    let (id_at_a, name_at_a) =
        match out.handshake(a.instance_id(), a.device_name(), a.psk(), reply) {
            HandshakeStep::Established { reply: None, id, name } => (id, name),
            other => panic!("{:?}", other),
        };
    assert_eq!((id_at_a, name_at_a.as_str()), (B, "host2"));
    assert_eq!((id_at_b, name_at_b.as_str()), (A, "host1"));

    assert_eq!(
        b.handle_handshake(conn_b, Role::Inbound, addr(1), id_at_b, name_at_b, 2500),
        Admission::Accepted { close: None, newly_trusted: true }
    );
    assert_eq!(
        a.complete_dial(conn_a, B, address, id_at_a, name_at_a, 3999),
        Admission::Accepted { close: None, newly_trusted: true }
    );

    assert_eq!(a.peer_state(B), Some(PeerState::Connected));
    assert_eq!(b.peer_state(A), Some(PeerState::Connected));
    assert_eq!(a.peer_count(), 1);
    assert_eq!(b.peer_count(), 1);
    assert_eq!(
        a.trust_store().get(&B),
        Some(&TrustedPeer { name: "host2".to_string(), first_seen: 3 })
    );
    assert_eq!(
        b.trust_store().get(&A),
        Some(&TrustedPeer { name: "host1".to_string(), first_seen: 2 })
    );
}

#[test]
fn wrong_psk_changes_no_trust_store() {
    let mut a = manager(A, "g");
    let b = ConnectionManager::new(
        Instance::with_identity(B, Some("host2".to_string())),
        "g".to_string(),
        "t".to_string(),
        TrustStore::new(),
    );
    let conn_a = match a.handle_discovered_peer(discovered(B, "g"), 0) {
        DialDecision::Dial { conn, .. } => conn,
        other => panic!("{:?}", other),
    };
    let mut out = PeerConnection::outbound([0x11; 32]);
    let mut inc = PeerConnection::inbound();
    let hello_a = out.opening(a.instance_id(), a.device_name()).unwrap();
    let hello_b = match inc.handshake(b.instance_id(), b.device_name(), b.psk(), hello_a) {
        HandshakeStep::Send(m) => m,
        other => panic!("{:?}", other),
    };
    let auth_a = match out.handshake(a.instance_id(), a.device_name(), a.psk(), hello_b) {
        HandshakeStep::Send(m) => m,
        other => panic!("{:?}", other),
    };
    let reply = match inc.handshake(b.instance_id(), b.device_name(), b.psk(), auth_a) {
        HandshakeStep::Established { reply: Some(m), .. } => m,
        other => panic!("{:?}", other),
    };
    assert_eq!(
        out.handshake(a.instance_id(), a.device_name(), a.psk(), reply),
        HandshakeStep::Failed(ProtocolError::AuthFailed)
    );
    assert_eq!(out.close(), None);
    assert!(a.handle_disconnect(B, conn_a));
    assert_eq!(a.peer_count(), 0);
    assert!(a.trust_store().is_empty());
    assert!(b.trust_store().is_empty());
}

#[test]
fn pairing_window() {
    let mut a = manager(A, "x");
    // Somebody is trusted already, so that trust is not free for all.
    assert_eq!(
        a.handle_handshake(90, Role::Inbound, addr(9), 9, "nine".to_string(), 0),
        Admission::Accepted { close: None, newly_trusted: true }
    );
    let start = 10_000;
    a.enable_pairing(start, 5);
    assert!(a.pairing_active(start));
    assert!(a.pairing_active(start + 4_999));
    assert!(!a.pairing_active(start + 5_000));

    // B has another group and is unknown: accepted while the window is open.
    let conn = match a.handle_discovered_peer(discovered(B, "y"), start + 100) {
        DialDecision::Dial { conn, .. } => conn,
        other => panic!("{:?}", other),
    };
    assert_eq!(
        a.complete_dial(conn, B, addr(2), B, "host2".to_string(), start + 200),
        Admission::Accepted { close: None, newly_trusted: true }
    );
    assert!(a.trust_store().is_trusted(&B));
    assert_eq!(a.trust_store().get(&B).unwrap().first_seen, 10);

    // Five seconds later C, of the same other group, is dropped.
    assert_eq!(
        a.handle_discovered_peer(discovered(C, "y"), start + 5_000),
        DialDecision::Drop(DropReason::GroupMismatch)
    );
    // Of our own group it would still be a stranger.
    assert_eq!(
        a.handle_discovered_peer(discovered(C, "x"), start + 5_000),
        DialDecision::Drop(DropReason::NotTrusted)
    );
    assert!(!a.trust_store().is_trusted(&C));
}

#[test]
fn pairing_window_saturates() {
    let mut a = manager(A, "x");
    a.enable_pairing(u64::MAX - 10, 5);
    assert!(a.pairing_active(u64::MAX - 1));
    assert!(!a.pairing_active(u64::MAX));
    a.enable_pairing(0, u64::MAX);
    assert!(a.pairing_active(u64::MAX - 1));
}

#[test]
fn self_connection_is_rejected() {
    let mut a = manager(A, "g");
    let conn = a.accept_connection().unwrap();
    assert_eq!(
        a.handle_handshake(conn, Role::Inbound, addr(1), A, "me".to_string(), 0),
        Admission::Rejected(RejectReason::SelfConnection)
    );
    assert_eq!(a.peer_count(), 0);
    assert!(a.trust_store().is_empty());
}

/// Both instances dial each other at once. On each side both handshakes
/// succeed, in either order; the connection that B dialed survives.
fn race(local: u128, remote: u128, inbound_first: bool) -> (ConnectionManager, u64, u64, Vec<u64>) {
    let mut m = manager(local, "g");
    let dialed = match m.handle_discovered_peer(discovered(remote, "g"), 0) {
        DialDecision::Dial { conn, .. } => conn,
        other => panic!("{:?}", other),
    };
    let accepted = m.accept_connection().unwrap();
    let mut closed = Vec::new();
    let order = if inbound_first { [Role::Inbound, Role::Outbound] } else { [Role::Outbound, Role::Inbound] };
    for role in order {
        let conn = if role == Role::Inbound { accepted } else { dialed };
        let verdict = if role == Role::Inbound {
            m.handle_handshake(conn, role, addr(remote as u32), remote, "peer".to_string(), 1)
        } else {
            m.complete_dial(conn, remote, addr(remote as u32), remote, "peer".to_string(), 1)
        };
        match verdict {
            Admission::Accepted { close: Some(loser), .. } => closed.push(loser),
            Admission::Accepted { close: None, .. } => {}
            Admission::Rejected(RejectReason::Duplicate) => closed.push(conn),
            other => panic!("{:?}", other),
        }
    }
    (m, dialed, accepted, closed)
}

#[test]
fn dedup_keeps_the_connection_dialed_by_the_greater_id() {
    for inbound_first in [true, false] {
        // At A (the lower id) the accepted connection survives.
        let (m, dialed, accepted, closed) = race(A, B, inbound_first);
        assert_eq!(m.peer_connection(B), Some(accepted));
        assert_eq!(m.peer_state(B), Some(PeerState::Connected));
        assert_eq!(closed, vec![dialed]);
        assert_eq!(m.peer_count(), 1);
        // At B (the greater id) the dialed connection survives.
        let (m, dialed, accepted, closed) = race(B, A, inbound_first);
        assert_eq!(m.peer_connection(A), Some(dialed));
        assert_eq!(m.peer_state(A), Some(PeerState::Connected));
        assert_eq!(closed, vec![accepted]);
        assert_eq!(m.peer_count(), 1);
    }
}

#[test]
fn loser_leaving_does_not_remove_the_winner() {
    let (mut m, dialed, accepted, _) = race(A, B, true);
    assert!(!m.handle_disconnect(B, dialed));
    assert_eq!(m.peer_connection(B), Some(accepted));
    assert!(m.handle_disconnect(B, accepted));
    assert_eq!(m.peer_state(B), None);
    assert!(m.trust_store().is_trusted(&B));
}

#[test]
fn dial_that_meets_another_identity() {
    let mut m = manager(A, "g");
    let conn = match m.handle_discovered_peer(discovered(B, "g"), 0) {
        DialDecision::Dial { conn, .. } => conn,
        other => panic!("{:?}", other),
    };
    // The peer found as B calls itself C.
    assert_eq!(
        m.complete_dial(conn, B, addr(2), C, "cee".to_string(), 5000),
        Admission::Accepted { close: None, newly_trusted: true }
    );
    assert_eq!(m.peer_state(B), None);
    assert_eq!(m.peer_state(C), Some(PeerState::Connected));
    assert_eq!(m.peer_connection(C), Some(conn));
    assert_eq!(m.peer_count(), 1);
}

/// A peer sends `len = 5` and closes after three bytes: the frame does not
/// decode, the connection reports the peer as gone and the registry entry
/// goes.
#[test]
fn frame_truncation() {
    let mut m = manager(A, "g");
    let conn = m.accept_connection().unwrap();
    assert_eq!(
        m.handle_handshake(conn, Role::Inbound, addr(2), B, "bee".to_string(), 0),
        Admission::Accepted { close: None, newly_trusted: true }
    );
    let mut connection = PeerConnection::inbound();
    let _ = connection.handshake(A, "ay", "s", Message::Hello { id: B, name: "bee".to_string() });
    let _ = connection.handshake(A, "ay", "s", Message::Auth { challenge: [3; 32], response: [0; 32] });
    assert_eq!(connection.peer_id(), Some(B));

    assert_eq!(Message::decode(&[0, 0, 0, 5, 2, 0, 0]), Err(ProtocolError::InvalidLength));
    assert_eq!(connection.close(), Some(PeerEvent::Disconnected { id: B }));
    assert!(m.handle_disconnect(B, conn));
    assert_eq!(m.peer_count(), 0);
}

#[test]
fn connection_error_text() {
    let e = ConnectionError("Expected HELLO message".to_string());
    assert_eq!(e.to_string(), "Expected HELLO message");
}

/// A dialed peer whose handshake succeeds keeps its registered entry:
/// only the state is lifted. The name of its `Hello` goes to the trust
/// store.
#[test]
fn dialed_entry_is_upgraded_in_place() {
    let mut a = manager(A, "g");
    let (conn, address) = match a.handle_discovered_peer(discovered(B, "g"), 0) {
        DialDecision::Dial { conn, address } => (conn, address),
        other => panic!("{:?}", other),
    };
    assert_eq!(
        a.peer_info(B),
        Some(&PeerInfo {
            state: PeerState::Connecting,
            address: addr(2),
            device_name: "host2".to_string(),
            role: Role::Outbound,
            conn,
        })
    );
    // The peer calls itself otherwise in its Hello, and the caller hands
    // in another address.
    assert_eq!(
        a.complete_dial(conn, B, addr(9), B, "bee".to_string(), 7_000),
        Admission::Accepted { close: None, newly_trusted: true }
    );
    assert_eq!(address, addr(2));
    assert_eq!(
        a.peer_info(B),
        Some(&PeerInfo {
            state: PeerState::Connected,
            address: addr(2),
            device_name: "host2".to_string(),
            role: Role::Outbound,
            conn,
        })
    );
    assert_eq!(a.peer_count(), 1);
    assert_eq!(
        a.trust_store().get(&B),
        Some(&TrustedPeer { name: "bee".to_string(), first_seen: 7 })
    );
    assert_eq!(a.peer_info(C), None);
}

/// An accepted connection has no entry of its own before: it is
/// registered under the name of the peer's Hello.
#[test]
fn accepted_entry_takes_the_hello_name() {
    let mut a = manager(A, "g");
    let dialed = match a.handle_discovered_peer(discovered(B, "g"), 0) {
        DialDecision::Dial { conn, .. } => conn,
        other => panic!("{:?}", other),
    };
    let accepted = a.accept_connection().unwrap();
    assert_eq!(
        a.handle_handshake(accepted, Role::Inbound, addr(7), B, "bee".to_string(), 0),
        Admission::Accepted { close: None, newly_trusted: true }
    );
    assert_eq!(
        a.peer_info(B),
        Some(&PeerInfo {
            state: PeerState::Connected,
            address: addr(7),
            device_name: "bee".to_string(),
            role: Role::Inbound,
            conn: accepted,
        })
    );
    // A is the lower id: its own dial loses against the accepted one.
    assert_eq!(
        a.complete_dial(dialed, B, addr(2), B, "bee".to_string(), 0),
        Admission::Rejected(RejectReason::Duplicate)
    );
    assert_eq!(a.peer_connection(B), Some(accepted));
}
