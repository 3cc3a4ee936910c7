//! The connection manager: the peer registry, the dial and accept
//! decisions, the rule that settles a dial/accept race, pairing mode and
//! the trust update.
//!
//! The manager owns no socket and no task. A connection is known to it by
//! a token. The manager hands out the tokens, and tells its caller which
//! connection to open, to keep or to close.

use crate::discovery::{DiscoveredPeer, DiscoveredPeerView};
use crate::instance::Instance;
use crate::net::SocketAddress;
use crate::peer::Role;
use crate::trust::{trust_step, TrustStore, TrustedPeerView};
use std::collections::HashMap;
use vstd::prelude::*;

verus! {

/// A failure of a connection, in words.
#[derive(Debug, Clone)]
pub struct ConnectionError(pub String);

impl ConnectionError {
    pub fn to_string(&self) -> (s: String)
        ensures
            s@ == self.0@,
    {
        self.0.clone()
    }
}

/// How far the connection to a registered peer has come.
#[derive(Debug, Clone, Copy, PartialEq, Eq, Structural)]
pub enum PeerState {
    /// Known, not yet dialed.
    Discovered,
    /// Dialed; the handshake is under way.
    Connecting,
    /// Authenticated and live.
    Connected,
}

/// The registry's entry for one peer.
#[derive(Debug, Clone, PartialEq, Eq)]
pub struct PeerInfo {
    pub state: PeerState,
    pub address: SocketAddress,
    pub device_name: String,
    /// Which side opened the connection that holds the entry.
    pub role: Role,
    /// The connection that holds the entry.
    pub conn: u64,
}

pub ghost struct PeerInfoView {
    pub state: PeerState,
    pub address: SocketAddress,
    pub device_name: Seq<char>,
    pub role: Role,
    pub conn: u64,
}

impl View for PeerInfo {
    type V = PeerInfoView;

    open spec fn view(&self) -> PeerInfoView {
        PeerInfoView {
            state: self.state,
            address: self.address,
            device_name: self.device_name@,
            role: self.role,
            conn: self.conn,
        }
    }
}

/// Why a discovered peer is not dialed.
#[derive(Debug, Clone, Copy, PartialEq, Eq, Structural)]
pub enum DropReason {
    /// It is this instance.
    SelfDiscovery,
    /// It is of another group, and pairing mode is off.
    GroupMismatch,
    /// The trust store has entries, none of them this peer, and pairing
    /// mode is off.
    NotTrusted,
    /// The registry holds a connection to it, live or under way.
    AlreadyConnected,
    /// No connection token is left to give.
    Exhausted,
}

/// What to do about a discovered peer.
#[derive(Debug, Clone, Copy, PartialEq, Eq, Structural)]
pub enum DialDecision {
    /// Open a connection to `address` and run the dialer's handshake on
    /// it. The connection goes by `conn`.
    Dial { conn: u64, address: SocketAddress },
    Drop(DropReason),
}

/// Why an authenticated connection is closed all the same.
#[derive(Debug, Clone, Copy, PartialEq, Eq, Structural)]
pub enum RejectReason {
    /// The peer is this instance.
    SelfConnection,
    /// The peer is not trusted and cannot become so now.
    NotTrusted,
    /// Another connection to the peer is live and keeps its place.
    Duplicate,
}

/// What becomes of a connection whose handshake succeeded.
#[derive(Debug, Clone, Copy, PartialEq, Eq, Structural)]
pub enum Admission {
    /// The connection is the peer's registered one. Where `close` names a
    /// connection, that one lost its place and is to be closed. Where
    /// `newly_trusted` holds, the trust store gained the peer and is to be
    /// saved.
    Accepted { close: Option<u64>, newly_trusted: bool },
    /// Close the connection.
    Rejected(RejectReason),
}

/// The manager in mathematical terms.
pub ghost struct ManagerView {
    pub self_id: u128,
    pub group: Seq<char>,
    pub trusted: Map<u128, TrustedPeerView>,
    pub peers: Map<u128, PeerInfoView>,
    /// The instant, in milliseconds, at which pairing mode ends.
    pub pairing_until: Option<u64>,
    /// The next connection token.
    pub next_conn: u64,
}

/// Pairing mode is on from the moment it is enabled until its expiry.
pub open spec fn pairing_active(until: Option<u64>, now: u64) -> bool {
    until matches Some(t) && now < t
}

/// The expiry of a pairing window of `seconds` opened at `now`.
pub open spec fn pairing_expiry(now: u64, seconds: u64) -> u64 {
    if now + seconds * 1000 <= u64::MAX {
        (now + seconds * 1000) as u64
    } else {
        u64::MAX
    }
}

/// Whether a peer may be connected to as far as trust goes: it is
/// trusted, or nobody is yet, or pairing mode is on.
pub open spec fn trust_admits(s: ManagerView, id: u128, now: u64) -> bool {
    s.trusted.contains_key(id) || s.trusted == Map::<u128, TrustedPeerView>::empty()
        || pairing_active(s.pairing_until, now)
}

/// Whether the registry holds a connection to `id`, live or under way.
pub open spec fn engaged(s: ManagerView, id: u128) -> bool {
    s.peers.contains_key(id) && (s.peers[id].state == PeerState::Connecting || s.peers[id].state
        == PeerState::Connected)
}

/// The dial decision for a discovered peer at time `now`.
pub open spec fn dial_decision(s: ManagerView, peer: DiscoveredPeerView, now: u64) -> DialDecision {
    if peer.instance_id == s.self_id {
        DialDecision::Drop(DropReason::SelfDiscovery)
    } else if peer.group != s.group && !pairing_active(s.pairing_until, now) {
        DialDecision::Drop(DropReason::GroupMismatch)
    } else if !trust_admits(s, peer.instance_id, now) {
        DialDecision::Drop(DropReason::NotTrusted)
    } else if engaged(s, peer.instance_id) {
        DialDecision::Drop(DropReason::AlreadyConnected)
    } else if s.next_conn == u64::MAX {
        DialDecision::Drop(DropReason::Exhausted)
    } else {
        DialDecision::Dial { conn: s.next_conn, address: peer.address }
    }
}

/// The manager after the dial decision: a dialed peer is registered as
/// connecting, everything else leaves the manager as it was.
pub open spec fn dial_step(s: ManagerView, peer: DiscoveredPeerView, now: u64) -> ManagerView {
    match dial_decision(s, peer, now) {
        DialDecision::Dial { conn, address } => ManagerView {
            peers: s.peers.insert(
                peer.instance_id,
                PeerInfoView {
                    state: PeerState::Connecting,
                    address,
                    device_name: peer.device_name,
                    role: Role::Outbound,
                    conn,
                },
            ),
            next_conn: (s.next_conn + 1) as u64,
            ..s
        },
        DialDecision::Drop(_) => s,
    }
}

/// The rule that settles a dial/accept race. Of two connections between
/// the same two instances, the one that the instance with the greater
/// identifier dialed survives. Seen from one end: an accepted connection
/// wins when the remote identifier is the greater, a dialed one when the
/// local identifier is.
pub open spec fn new_connection_wins(role: Role, local: u128, remote: u128) -> bool {
    match role {
        Role::Inbound => remote > local,
        Role::Outbound => local > remote,
    }
}

/// Whether another connection is live in the peer's place.
pub open spec fn contested(s: ManagerView, conn: u64, peer_id: u128) -> bool {
    s.peers.contains_key(peer_id) && s.peers[peer_id].state == PeerState::Connected
        && s.peers[peer_id].conn != conn
}

/// What becomes of the connection `conn`, which we opened in `role` and
/// whose handshake gave `peer_id`, at time `now`.
pub open spec fn admission(
    s: ManagerView,
    conn: u64,
    role: Role,
    peer_id: u128,
    now: u64,
) -> Admission {
    if peer_id == s.self_id {
        Admission::Rejected(RejectReason::SelfConnection)
    } else if !trust_admits(s, peer_id, now) {
        Admission::Rejected(RejectReason::NotTrusted)
    } else if contested(s, conn, peer_id) {
        if new_connection_wins(role, s.self_id, peer_id) {
            Admission::Accepted {
                close: Some(s.peers[peer_id].conn),
                newly_trusted: !s.trusted.contains_key(peer_id),
            }
        } else {
            Admission::Rejected(RejectReason::Duplicate)
        }
    } else {
        Admission::Accepted { close: None, newly_trusted: !s.trusted.contains_key(peer_id) }
    }
}

/// The entry of an admitted connection. A connection that holds the
/// peer's entry already, as a dialed one does, keeps it as it was
/// registered and is only lifted to connected. Any other connection gets
/// a new entry, under the name that the peer gave in its `Hello`.
pub open spec fn admitted_entry(
    s: ManagerView,
    conn: u64,
    role: Role,
    address: SocketAddress,
    peer_id: u128,
    name: Seq<char>,
) -> PeerInfoView {
    if s.peers.contains_key(peer_id) && s.peers[peer_id].conn == conn {
        PeerInfoView { state: PeerState::Connected, ..s.peers[peer_id] }
    } else {
        PeerInfoView { state: PeerState::Connected, address, device_name: name, role, conn }
    }
}

/// The manager after the admission: an accepted connection holds the
/// peer's entry, as connected, and the peer is trusted from `now` on,
/// under the name of its `Hello`, if it was not before. A rejected one
/// changes nothing.
pub open spec fn admit_step(
    s: ManagerView,
    conn: u64,
    role: Role,
    address: SocketAddress,
    peer_id: u128,
    name: Seq<char>,
    now: u64,
) -> ManagerView {
    match admission(s, conn, role, peer_id, now) {
        Admission::Accepted { .. } => ManagerView {
            trusted: trust_step(s.trusted, peer_id, name, now / 1000),
            peers: s.peers.insert(
                peer_id,
                admitted_entry(s, conn, role, address, peer_id, name),
            ),
            ..s
        },
        Admission::Rejected(_) => s,
    }
}

/// The manager after the connection `conn` to `peer_id` ended: the entry
/// goes if `conn` holds it, and stays if another connection does.
pub open spec fn release_step(s: ManagerView, peer_id: u128, conn: u64) -> ManagerView {
    if s.peers.contains_key(peer_id) && s.peers[peer_id].conn == conn {
        ManagerView { peers: s.peers.remove(peer_id), ..s }
    } else {
        s
    }
}

/// The manager after it gave out a token for an accepted stream.
pub open spec fn token_step(s: ManagerView) -> ManagerView {
    if s.next_conn == u64::MAX {
        s
    } else {
        ManagerView { next_conn: (s.next_conn + 1) as u64, ..s }
    }
}

/// Registry, trust store and pairing window of one instance.
#[derive(Debug)]
pub struct ConnectionManager {
    instance_id: u128,
    device_name: String,
    group: String,
    psk: String,
    trust: TrustStore,
    peers: HashMap<u128, PeerInfo>,
    pairing_until: Option<u64>,
    next_conn: u64,
}

impl View for ConnectionManager {
    type V = ManagerView;

    closed spec fn view(&self) -> ManagerView {
        ManagerView {
            self_id: self.instance_id,
            group: self.group@,
            trusted: self.trust@,
            peers: self.peers@.map_values(|p: PeerInfo| p@),
            pairing_until: self.pairing_until,
            next_conn: self.next_conn,
        }
    }
}

impl ConnectionManager {
    /// The trust store is in order.
    pub closed spec fn store_wf(&self) -> bool {
        self.trust.wf()
    }

    /// What holds of every manager that the functions below hand out: the
    /// trust store is in order, the instance is no peer of itself, and
    /// every connected peer is trusted.
    pub open spec fn wf(&self) -> bool {
        self.store_wf() && registry_sound(self@)
    }

    /// The name this instance announces.
    pub closed spec fn name(&self) -> Seq<char> {
        self.device_name@
    }

    /// The pre-shared key.
    pub closed spec fn key(&self) -> Seq<char> {
        self.psk@
    }

    /// The manager of `instance` in `group`, with an empty registry and
    /// pairing mode off.
    pub fn new(instance: Instance, group: String, psk: String, trust: TrustStore) -> (m:
        ConnectionManager)
        requires
            trust.wf(),
        ensures
            m.wf(),
            m@ == (ManagerView {
                self_id: instance.id,
                group: group@,
                trusted: trust@,
                peers: Map::<u128, PeerInfoView>::empty(),
                pairing_until: None,
                next_conn: 0,
            }),
            m.name() == instance.device_name@,
            m.key() == psk@,
    {
        let m = ConnectionManager {
            instance_id: instance.id,
            device_name: instance.device_name,
            group,
            psk,
            trust,
            peers: HashMap::new(),
            pairing_until: None,
            next_conn: 0,
        };
        assert(m@.peers =~= Map::<u128, PeerInfoView>::empty());
        m
    }

    pub fn instance_id(&self) -> (id: u128)
        ensures
            id == self@.self_id,
    {
        self.instance_id
    }

    pub fn device_name(&self) -> (name: &str)
        ensures
            name@ == self.name(),
    {
        self.device_name.as_str()
    }

    pub fn group(&self) -> (group: &str)
        ensures
            group@ == self@.group,
    {
        self.group.as_str()
    }

    pub fn psk(&self) -> (psk: &str)
        ensures
            psk@ == self.key(),
    {
        self.psk.as_str()
    }

    /// The trust store, to read and to save.
    pub fn trust_store(&self) -> (store: &TrustStore)
        requires
            self.wf(),
        ensures
            store.wf(),
            store@ == self@.trusted,
    {
        &self.trust
    }

    /// Turns pairing mode on at `now` for `seconds`. Times are in
    /// milliseconds.
    pub fn enable_pairing(&mut self, now: u64, seconds: u64)
        requires
            old(self).wf(),
        ensures
            final(self).wf(),
            final(self)@ == (ManagerView {
                pairing_until: Some(pairing_expiry(now, seconds)),
                ..old(self)@
            }),
            final(self).name() == old(self).name(),
            final(self).key() == old(self).key(),
    {
        let until: u64 = match seconds.checked_mul(1000) {
            Some(span) => match now.checked_add(span) {
                Some(t) => t,
                None => u64::MAX,
            },
            None => u64::MAX,
        };
        self.pairing_until = Some(until);
    }

    /// Whether pairing mode is on at `now`.
    pub fn pairing_active(&self, now: u64) -> (on: bool)
        ensures
            on == pairing_active(self@.pairing_until, now),
    {
        match self.pairing_until {
            Some(t) => now < t,
            None => false,
        }
    }

    fn trust_admits(&self, id: u128, now: u64) -> (ok: bool)
        requires
            self.wf(),
        ensures
            ok == trust_admits(self@, id, now),
    {
        self.trust.is_trusted(&id) || self.trust.is_empty() || self.pairing_active(now)
    }

    /// The state of the registered connection to `id`, if there is one.
    pub fn peer_state(&self, id: u128) -> (state: Option<PeerState>)
        ensures
            state == if self@.peers.contains_key(id) {
                Some(self@.peers[id].state)
            } else {
                None
            },
    {
        broadcast use vstd::std_specs::hash::group_hash_axioms;

        match self.peers.get(&id) {
            Some(info) => Some(info.state),
            None => None,
        }
    }

    /// The registry's entry of `id`, if there is one.
    pub fn peer_info(&self, id: u128) -> (info: Option<&PeerInfo>)
        ensures
            match info {
                Some(i) => self@.peers.contains_key(id) && self@.peers[id] == i@,
                None => !self@.peers.contains_key(id),
            },
    {
        broadcast use vstd::std_specs::hash::group_hash_axioms;

        self.peers.get(&id)
    }

    /// The connection that holds the entry of `id`, if there is one.
    pub fn peer_connection(&self, id: u128) -> (conn: Option<u64>)
        ensures
            conn == if self@.peers.contains_key(id) {
                Some(self@.peers[id].conn)
            } else {
                None
            },
    {
        broadcast use vstd::std_specs::hash::group_hash_axioms;

        match self.peers.get(&id) {
            Some(info) => Some(info.conn),
            None => None,
        }
    }

    /// The number of registered peers.
    pub fn peer_count(&self) -> (n: usize)
        ensures
            n == self@.peers.dom().len(),
    {
        broadcast use vstd::std_specs::hash::group_hash_axioms;

        assert(self@.peers.dom() =~= self.peers@.dom());
        self.peers.len()
    }

    /// Decides at time `now` whether to dial a discovered peer, and
    /// registers the peer as connecting where the answer is yes.
    pub fn handle_discovered_peer(&mut self, peer: DiscoveredPeer, now: u64) -> (decision:
        DialDecision)
        requires
            old(self).wf(),
        ensures
            final(self).wf(),
            decision == dial_decision(old(self)@, peer@, now),
            final(self)@ == dial_step(old(self)@, peer@, now),
            final(self).name() == old(self).name(),
            final(self).key() == old(self).key(),
    {
        broadcast use vstd::std_specs::hash::group_hash_axioms;

        let id: u128 = peer.instance_id;
        if id == self.instance_id {
            return DialDecision::Drop(DropReason::SelfDiscovery);
        }
        let pairing = self.pairing_active(now);
        if !(peer.group == self.group) && !pairing {
            return DialDecision::Drop(DropReason::GroupMismatch);
        }
        if !self.trust_admits(id, now) {
            return DialDecision::Drop(DropReason::NotTrusted);
        }
        let engaged = match self.peers.get(&id) {
            Some(info) => match info.state {
                PeerState::Connecting => true,
                PeerState::Connected => true,
                PeerState::Discovered => false,
            },
            None => false,
        };
        if engaged {
            return DialDecision::Drop(DropReason::AlreadyConnected);
        }
        if self.next_conn == u64::MAX {
            return DialDecision::Drop(DropReason::Exhausted);
        }
        let conn: u64 = self.next_conn;
        let address = peer.address;
        let info = PeerInfo {
            state: PeerState::Connecting,
            address,
            device_name: peer.device_name,
            role: Role::Outbound,
            conn,
        };
        self.next_conn = conn + 1;
        self.peers.insert(id, info);
        assert(self@.peers =~= old(self)@.peers.insert(id, info@));
        DialDecision::Dial { conn, address }
    }

    /// A token for a stream that was just accepted, if one is left.
    pub fn accept_connection(&mut self) -> (conn: Option<u64>)
        requires
            old(self).wf(),
        ensures
            final(self).wf(),
            final(self)@ == token_step(old(self)@),
            conn == if old(self)@.next_conn == u64::MAX {
                None
            } else {
                Some(old(self)@.next_conn)
            },
            final(self).name() == old(self).name(),
            final(self).key() == old(self).key(),
    {
        if self.next_conn == u64::MAX {
            None
        } else {
            let conn: u64 = self.next_conn;
            self.next_conn = conn + 1;
            Some(conn)
        }
    }

    /// Decides at time `now` what becomes of the connection `conn`, opened
    /// in `role` to `address`, whose handshake named the peer `peer_id`
    /// with `peer_name`. The decision and the registry update are one
    /// step.
    pub fn handle_handshake(
        &mut self,
        conn: u64,
        role: Role,
        address: SocketAddress,
        peer_id: u128,
        peer_name: String,
        now: u64,
    ) -> (verdict: Admission)
        requires
            old(self).wf(),
        ensures
            final(self).wf(),
            verdict == admission(old(self)@, conn, role, peer_id, now),
            final(self)@ == admit_step(old(self)@, conn, role, address, peer_id, peer_name@, now),
            final(self).name() == old(self).name(),
            final(self).key() == old(self).key(),
    {
        broadcast use vstd::std_specs::hash::group_hash_axioms;

        if peer_id == self.instance_id {
            return Admission::Rejected(RejectReason::SelfConnection);
        }
        if !self.trust_admits(peer_id, now) {
            return Admission::Rejected(RejectReason::NotTrusted);
        }
        let rival: Option<u64> = match self.peers.get(&peer_id) {
            Some(info) => match info.state {
                PeerState::Connected => if info.conn != conn {
                    Some(info.conn)
                } else {
                    None
                },
                PeerState::Connecting => None,
                PeerState::Discovered => None,
            },
            None => None,
        };
        let held: bool = match self.peers.get(&peer_id) {
            Some(info) => info.conn == conn,
            None => false,
        };
        if rival.is_some() {
            let wins = match role {
                Role::Inbound => peer_id > self.instance_id,
                Role::Outbound => self.instance_id > peer_id,
            };
            if !wins {
                return Admission::Rejected(RejectReason::Duplicate);
            }
        }
        let newly_trusted = !self.trust.is_trusted(&peer_id);
        let registered: Option<PeerInfo> = if held {
            self.peers.remove(&peer_id)
        } else {
            None
        };
        let info = match registered {
            Some(entry) => PeerInfo { state: PeerState::Connected, ..entry },
            None => PeerInfo {
                state: PeerState::Connected,
                address,
                device_name: peer_name.clone(),
                role,
                conn,
            },
        };
        self.trust.trust(peer_id, peer_name, now / 1000);
        self.peers.insert(peer_id, info);
        assert(self@.peers =~= old(self)@.peers.insert(peer_id, info@));
        Admission::Accepted { close: rival, newly_trusted }
    }

    /// The dialed connection `conn`, registered under `dialed` when it was
    /// opened, finished its handshake with a peer that calls itself
    /// `peer_id`. What the connection held under another identifier is
    /// given up first.
    pub fn complete_dial(
        &mut self,
        conn: u64,
        dialed: u128,
        address: SocketAddress,
        peer_id: u128,
        peer_name: String,
        now: u64,
    ) -> (verdict: Admission)
        requires
            old(self).wf(),
        ensures
            final(self).wf(),
            ({
                let before = if dialed != peer_id {
                    release_step(old(self)@, dialed, conn)
                } else {
                    old(self)@
                };
                &&& verdict == admission(before, conn, Role::Outbound, peer_id, now)
                &&& final(self)@ == admit_step(
                    before,
                    conn,
                    Role::Outbound,
                    address,
                    peer_id,
                    peer_name@,
                    now,
                )
            }),
            final(self).name() == old(self).name(),
            final(self).key() == old(self).key(),
    {
        if dialed != peer_id {
            self.handle_disconnect(dialed, conn);
        }
        self.handle_handshake(conn, Role::Outbound, address, peer_id, peer_name, now)
    }

    /// The connection `conn` to `peer_id` ended, or never got through its
    /// handshake. Says whether the registry entry went with it.
    pub fn handle_disconnect(&mut self, peer_id: u128, conn: u64) -> (removed: bool)
        requires
            old(self).wf(),
        ensures
            final(self).wf(),
            final(self)@ == release_step(old(self)@, peer_id, conn),
            removed == (old(self)@.peers.contains_key(peer_id) && old(self)@.peers[peer_id].conn
                == conn),
            final(self).name() == old(self).name(),
            final(self).key() == old(self).key(),
    {
        broadcast use vstd::std_specs::hash::group_hash_axioms;

        let holds = match self.peers.get(&peer_id) {
            Some(info) => info.conn == conn,
            None => false,
        };
        if holds {
            self.peers.remove(&peer_id);
            assert(self@.peers =~= old(self)@.peers.remove(peer_id));
        }
        holds
    }
}

/// What can happen to a manager.
pub ghost enum ManagerEvent {
    /// Discovery reported a peer.
    Discovered { peer: DiscoveredPeerView, now: u64 },
    /// The listener accepted a stream.
    Incoming,
    /// A handshake succeeded.
    Handshake {
        conn: u64,
        role: Role,
        address: SocketAddress,
        peer_id: u128,
        name: Seq<char>,
        now: u64,
    },
    /// A connection ended.
    Disconnected { peer_id: u128, conn: u64 },
    /// The operator opened a pairing window.
    Pairing { now: u64, seconds: u64 },
}

/// A manager together with the connections that are live: those that were
/// accepted and have neither ended nor been ordered closed since. A live
/// connection is written as the pair of its peer and its token.
pub ghost struct Mesh {
    pub manager: ManagerView,
    pub live: Set<(u128, u64)>,
}

/// One event.
pub open spec fn mesh_step(m: Mesh, e: ManagerEvent) -> Mesh {
    let s = m.manager;
    match e {
        ManagerEvent::Discovered { peer, now } => Mesh { manager: dial_step(s, peer, now), ..m },
        ManagerEvent::Incoming => Mesh { manager: token_step(s), ..m },
        ManagerEvent::Handshake { conn, role, address, peer_id, name, now } => Mesh {
            manager: admit_step(s, conn, role, address, peer_id, name, now),
            live: match admission(s, conn, role, peer_id, now) {
                Admission::Accepted { close: Some(loser), .. } => m.live.remove(
                    (peer_id, loser),
                ).insert((peer_id, conn)),
                Admission::Accepted { close: None, .. } => m.live.insert((peer_id, conn)),
                Admission::Rejected(_) => m.live,
            },
        },
        ManagerEvent::Disconnected { peer_id, conn } => Mesh {
            manager: release_step(s, peer_id, conn),
            live: m.live.remove((peer_id, conn)),
        },
        ManagerEvent::Pairing { now, seconds } => Mesh {
            manager: ManagerView { pairing_until: Some(pairing_expiry(now, seconds)), ..s },
            ..m
        },
    }
}

/// Any number of events, in any order.
pub open spec fn mesh_run(m: Mesh, events: Seq<ManagerEvent>) -> Mesh
    decreases events.len(),
{
    if events.len() == 0 {
        m
    } else {
        mesh_step(mesh_run(m, events.drop_last()), events.last())
    }
}

/// The live connections are exactly the connected entries of the
/// registry.
pub open spec fn registry_holds_live(m: Mesh) -> bool {
    forall|p: u128, c: u64| #[trigger]
        m.live.contains((p, c)) <==> (m.manager.peers.contains_key(p) && m.manager.peers[p].state
            == PeerState::Connected && m.manager.peers[p].conn == c)
}

/// At most one connection to each peer is live.
pub open spec fn single_live_connection(m: Mesh) -> bool {
    forall|p: u128, c1: u64, c2: u64|
        #[trigger] m.live.contains((p, c1)) && #[trigger] m.live.contains((p, c2)) ==> c1 == c2
}

/// Start from a registry that holds the live connections. Then whatever
/// happens, in whatever order, the registry still holds them, and no peer
/// has two live connections.
pub proof fn lemma_single_entry(m: Mesh, events: Seq<ManagerEvent>)
    requires
        registry_holds_live(m),
    ensures
        registry_holds_live(mesh_run(m, events)),
        single_live_connection(mesh_run(m, events)),
    decreases events.len(),
{
    if events.len() > 0 {
        lemma_single_entry(m, events.drop_last());
    }
}

/// Whatever happens to the manager, a peer that is trusted stays trusted,
/// under the name and the time of its first acceptance.
pub proof fn lemma_trust_only_grows(m: Mesh, events: Seq<ManagerEvent>, id: u128)
    requires
        m.manager.trusted.contains_key(id),
    ensures
        mesh_run(m, events).manager.trusted.contains_key(id),
        mesh_run(m, events).manager.trusted[id] == m.manager.trusted[id],
        mesh_run(m, events).manager.self_id == m.manager.self_id,
    decreases events.len(),
{
    if events.len() > 0 {
        lemma_trust_only_grows(m, events.drop_last(), id);
    }
}

/// Every connected peer is trusted, and the instance itself is no peer.
pub open spec fn registry_sound(s: ManagerView) -> bool {
    &&& !s.peers.contains_key(s.self_id)
    &&& forall|p: u128|
        s.peers.contains_key(p) && (#[trigger] s.peers[p]).state == PeerState::Connected
            ==> s.trusted.contains_key(p)
}

/// Whatever happens, in whatever order: the instance never registers
/// itself, and a peer is connected only if it is trusted.
pub proof fn lemma_registry_stays_sound(m: Mesh, events: Seq<ManagerEvent>)
    requires
        registry_sound(m.manager),
    ensures
        registry_sound(mesh_run(m, events).manager),
    decreases events.len(),
{
    if events.len() > 0 {
        lemma_registry_stays_sound(m, events.drop_last());
    }
}

/// A discovered peer with the local identifier is dropped at the first
/// step of the dial decision, and the manager is as it was.
pub proof fn lemma_self_never_dialed(s: ManagerView, peer: DiscoveredPeerView, now: u64)
    requires
        peer.instance_id == s.self_id,
    ensures
        dial_decision(s, peer, now) == DialDecision::Drop(DropReason::SelfDiscovery),
        dial_step(s, peer, now) == s,
{
}

/// A dialed connection that gets through its handshake keeps its place:
/// the entry that was registered when the peer was dialed stays as it
/// was, address and name with it, and only its state is lifted to
/// connected. No other entry changes.
pub proof fn lemma_dialed_entry_is_lifted(
    s: ManagerView,
    conn: u64,
    role: Role,
    address: SocketAddress,
    peer_id: u128,
    name: Seq<char>,
    now: u64,
)
    requires
        peer_id != s.self_id,
        trust_admits(s, peer_id, now),
        s.peers.contains_key(peer_id),
        s.peers[peer_id].conn == conn,
    ensures
        admission(s, conn, role, peer_id, now) == (Admission::Accepted {
            close: None,
            newly_trusted: !s.trusted.contains_key(peer_id),
        }),
        admit_step(s, conn, role, address, peer_id, name, now).peers == s.peers.insert(
            peer_id,
            PeerInfoView { state: PeerState::Connected, ..s.peers[peer_id] },
        ),
        admit_step(s, conn, role, address, peer_id, name, now).peers.dom() == s.peers.dom(),
{
}

/// A connection that finds another one live in the peer's place is kept
/// exactly when the race rule lets it win. Then it takes the place and
/// the other one is named for closing; else it is refused as a duplicate
/// and the manager is as it was. Trust plays no part: a peer that is
/// connected is trusted.
pub proof fn lemma_contested_admission(
    s: ManagerView,
    conn: u64,
    role: Role,
    address: SocketAddress,
    peer_id: u128,
    name: Seq<char>,
    now: u64,
)
    requires
        registry_sound(s),
        contested(s, conn, peer_id),
    ensures
        admission(s, conn, role, peer_id, now) == if new_connection_wins(
            role,
            s.self_id,
            peer_id,
        ) {
            Admission::Accepted { close: Some(s.peers[peer_id].conn), newly_trusted: false }
        } else {
            Admission::Rejected(RejectReason::Duplicate)
        },
        !new_connection_wins(role, s.self_id, peer_id) ==> admit_step(
            s,
            conn,
            role,
            address,
            peer_id,
            name,
            now,
        ) == s,
        new_connection_wins(role, s.self_id, peer_id) ==> {
            let after = admit_step(s, conn, role, address, peer_id, name, now);
            &&& after.peers[peer_id].conn == conn
            &&& after.peers[peer_id].state == PeerState::Connected
            &&& after.trusted == s.trusted
        },
{
}

/// A peer that is not trusted yet gets through while pairing mode is on,
/// or while nobody is trusted at all. The trust store then gains the peer
/// under the name of its `Hello` and the second of `now`, and every entry
/// of before is as it was.
pub proof fn lemma_new_peer_is_trusted(
    s: ManagerView,
    conn: u64,
    role: Role,
    address: SocketAddress,
    peer_id: u128,
    name: Seq<char>,
    now: u64,
)
    requires
        registry_sound(s),
        peer_id != s.self_id,
        !s.trusted.contains_key(peer_id),
        pairing_active(s.pairing_until, now) || s.trusted == Map::<u128, TrustedPeerView>::empty(),
    ensures
        admission(s, conn, role, peer_id, now) == (Admission::Accepted {
            close: None,
            newly_trusted: true,
        }),
        admit_step(s, conn, role, address, peer_id, name, now).trusted == s.trusted.insert(
            peer_id,
            TrustedPeerView { name, first_seen: now / 1000 },
        ),
        forall|q: u128| #[trigger]
            s.trusted.contains_key(q) ==> admit_step(
                s,
                conn,
                role,
                address,
                peer_id,
                name,
                now,
            ).trusted[q] == s.trusted[q],
{
}

/// A pairing window of `seconds` opened at `start` is open at every
/// instant before `start + seconds * 1000` and shut from then on, with
/// nothing more to do. Only the last instant that the clock can show
/// counts as shut whatever the window.
pub proof fn lemma_pairing_window(start: u64, seconds: u64, now: u64)
    ensures
        now < u64::MAX ==> (pairing_active(Some(pairing_expiry(start, seconds)), now) <==> now
            < start + seconds * 1000),
        start + seconds * 1000 <= u64::MAX ==> (pairing_active(
            Some(pairing_expiry(start, seconds)),
            now,
        ) <==> now < start + seconds * 1000),
{
}

/// While pairing mode is on, a peer of whatever group that has no entry
/// is dialed, as long as a connection token is left: it is registered as
/// connecting, under its address and name, and nothing else changes.
pub proof fn lemma_pairing_admits_dial(s: ManagerView, peer: DiscoveredPeerView, now: u64)
    requires
        pairing_active(s.pairing_until, now),
        peer.instance_id != s.self_id,
        !s.peers.contains_key(peer.instance_id),
        s.next_conn < u64::MAX,
    ensures
        dial_decision(s, peer, now) == (DialDecision::Dial {
            conn: s.next_conn,
            address: peer.address,
        }),
        dial_step(s, peer, now) == (ManagerView {
            peers: s.peers.insert(
                peer.instance_id,
                PeerInfoView {
                    state: PeerState::Connecting,
                    address: peer.address,
                    device_name: peer.device_name,
                    role: Role::Outbound,
                    conn: s.next_conn,
                },
            ),
            next_conn: (s.next_conn + 1) as u64,
            ..s
        }),
{
}

/// Once pairing mode is off, a peer of another group is dropped and the
/// manager is as it was.
pub proof fn lemma_other_group_dropped(s: ManagerView, peer: DiscoveredPeerView, now: u64)
    requires
        !pairing_active(s.pairing_until, now),
        peer.instance_id != s.self_id,
        peer.group != s.group,
    ensures
        dial_decision(s, peer, now) == DialDecision::Drop(DropReason::GroupMismatch),
        dial_step(s, peer, now) == s,
{
}

/// Both ends of a connection judge it alike: the end that accepted it
/// lets it win exactly when the end that dialed it does. And at one end,
/// of a dialed and an accepted connection to the same peer, exactly one
/// wins: the one that the greater identifier dialed.
pub proof fn lemma_race_sides_agree(a: u128, b: u128)
    requires
        a != b,
    ensures
        new_connection_wins(Role::Inbound, a, b) == new_connection_wins(Role::Outbound, b, a),
        new_connection_wins(Role::Inbound, a, b) != new_connection_wins(Role::Outbound, a, b),
        new_connection_wins(Role::Inbound, a, b) <==> a < b,
{
}

/// The connection that survives a race at an instance with identifier
/// `local` against `remote`: the accepted one where the remote identifier
/// is the greater, the dialed one otherwise.
pub open spec fn survivor(local: u128, remote: u128, dialed: u64, accepted: u64) -> u64 {
    if remote > local {
        accepted
    } else {
        dialed
    }
}

/// An instance has dialed a peer (connection `dialed`) and has accepted a
/// connection from the same peer (`accepted`). Both handshakes succeed, in
/// either order. Then the registry ends with the same connection in the
/// peer's place whichever handshake came first, the other connection was
/// refused or ordered closed, and the winner is the connection that the
/// greater identifier dialed.
pub proof fn lemma_race_outcome(
    s: ManagerView,
    peer_id: u128,
    dialed: u64,
    accepted: u64,
    address: SocketAddress,
    name: Seq<char>,
    t1: u64,
    t2: u64,
)
    requires
        peer_id != s.self_id,
        dialed != accepted,
        trust_admits(s, peer_id, t1),
        s.peers.contains_key(peer_id),
        s.peers[peer_id].state == PeerState::Connecting,
        s.peers[peer_id].conn == dialed,
    ensures
        ({
            let winner = survivor(s.self_id, peer_id, dialed, accepted);
            let loser = if winner == dialed {
                accepted
            } else {
                dialed
            };
            let in_first = admit_step(s, accepted, Role::Inbound, address, peer_id, name, t1);
            let in_then_out = admit_step(
                in_first,
                dialed,
                Role::Outbound,
                address,
                peer_id,
                name,
                t2,
            );
            let out_first = admit_step(s, dialed, Role::Outbound, address, peer_id, name, t1);
            let out_then_in = admit_step(
                out_first,
                accepted,
                Role::Inbound,
                address,
                peer_id,
                name,
                t2,
            );
            let second_a = admission(in_first, dialed, Role::Outbound, peer_id, t2);
            let second_b = admission(out_first, accepted, Role::Inbound, peer_id, t2);
            &&& in_then_out.peers[peer_id].conn == winner
            &&& out_then_in.peers[peer_id].conn == winner
            &&& in_then_out.peers[peer_id].state == PeerState::Connected
            &&& out_then_in.peers[peer_id].state == PeerState::Connected
            &&& in_then_out.peers.dom() == s.peers.dom()
            &&& out_then_in.peers.dom() == s.peers.dom()
            &&& winner == dialed ==> (second_a matches Admission::Accepted { close, .. } && close
                == Some(loser))
            &&& winner == accepted ==> second_a == Admission::Rejected(RejectReason::Duplicate)
            &&& winner == accepted ==> (second_b matches Admission::Accepted { close, .. } && close
                == Some(loser))
            &&& winner == dialed ==> second_b == Admission::Rejected(RejectReason::Duplicate)
        }),
{
}

} // verus!
