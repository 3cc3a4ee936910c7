//! Connections by address, for peers that are configured rather than
//! discovered: at most one connection per address, dialed or accepted.

use crate::net::SocketAddress;
use vstd::prelude::*;

verus! {

/// The delay between two attempts to reach a configured peer, in
/// milliseconds.
pub const RECONNECT_DELAY: u64 = 5000;

/// One live connection.
#[derive(Debug, Clone, Copy, PartialEq, Eq, Structural)]
pub struct ConnectionInfo {
    pub addr: SocketAddress,
    /// Whether the peer opened it.
    pub is_incoming: bool,
}

/// The connections of an instance, by address.
#[derive(Debug, Clone)]
pub struct NetworkManager {
    bind_addr: SocketAddress,
    peers: Vec<SocketAddress>,
    connections: Vec<ConnectionInfo>,
}

/// The index of the first connection to `addr`, or the length where there
/// is none.
pub open spec fn position(connections: Seq<ConnectionInfo>, addr: SocketAddress) -> int
    decreases connections.len(),
{
    if connections.len() == 0 {
        0
    } else if connections[0].addr == addr {
        0
    } else {
        1 + position(connections.drop_first(), addr)
    }
}

/// Whether there is a connection to `addr`.
pub open spec fn connected(connections: Seq<ConnectionInfo>, addr: SocketAddress) -> bool {
    exists|i: int| 0 <= i < connections.len() && #[trigger] connections[i].addr == addr
}

/// No address occurs twice.
pub open spec fn distinct(connections: Seq<ConnectionInfo>) -> bool {
    forall|i: int, j: int|
        0 <= i < j < connections.len() ==> (#[trigger] connections[i]).addr
            != (#[trigger] connections[j]).addr
}

pub proof fn lemma_position(connections: Seq<ConnectionInfo>, addr: SocketAddress)
    ensures
        0 <= position(connections, addr) <= connections.len(),
        position(connections, addr) < connections.len() <==> connected(connections, addr),
        position(connections, addr) < connections.len() ==> connections[position(
            connections,
            addr,
        )].addr == addr,
        forall|i: int| 0 <= i < position(connections, addr) ==> connections[i].addr != addr,
    decreases connections.len(),
{
    if connections.len() > 0 && connections[0].addr != addr {
        let rest = connections.drop_first();
        lemma_position(rest, addr);
        assert forall|i: int| 0 <= i < position(connections, addr) implies connections[i].addr
            != addr by {
            if i > 0 {
                assert(connections[i] == rest[i - 1]);
            }
        }
    }
}

impl NetworkManager {
    /// The live connections, oldest first.
    pub closed spec fn connections(&self) -> Seq<ConnectionInfo> {
        self.connections@
    }

    /// The configured peers.
    pub closed spec fn peers(&self) -> Seq<SocketAddress> {
        self.peers@
    }

    /// The address to listen on.
    pub closed spec fn address(&self) -> SocketAddress {
        self.bind_addr
    }

    /// What holds of every manager that the functions below hand out: no
    /// address is connected twice.
    pub closed spec fn wf(&self) -> bool {
        distinct(self.connections@)
    }

    pub proof fn lemma_distinct(&self)
        requires
            self.wf(),
        ensures
            distinct(self.connections()),
    {
    }

    /// A manager without connections.
    pub fn new(bind_addr: SocketAddress, peers: Vec<SocketAddress>) -> (m: NetworkManager)
        ensures
            m.wf(),
            m.connections() == Seq::<ConnectionInfo>::empty(),
            m.peers() == peers@,
            m.address() == bind_addr,
    {
        NetworkManager {
            bind_addr,
            peers,
            connections: Vec::new(),
        }
    }

    /// The address to listen on.
    pub fn bind_addr(&self) -> (addr: SocketAddress)
        ensures
            addr == self.address(),
    {
        self.bind_addr
    }

    /// The delay between two attempts to reach a peer, in milliseconds.
    pub fn reconnect_delay(&self) -> (ms: u64)
        ensures
            ms == RECONNECT_DELAY,
    {
        RECONNECT_DELAY
    }

    /// The configured peers.
    pub fn peer_list(&self) -> (peers: &Vec<SocketAddress>)
        ensures
            peers@ == self.peers(),
    {
        &self.peers
    }

    fn find(&self, addr: SocketAddress) -> (i: usize)
        ensures
            i == position(self.connections(), addr),
    {
        let n: usize = self.connections.len();
        let mut i: usize = 0;
        proof {
            lemma_position(self.connections@, addr);
        }
        while i < n
            invariant
                i <= n,
                n == self.connections@.len(),
                i <= position(self.connections@, addr) <= n,
                forall|j: int| 0 <= j < i ==> self.connections@[j].addr != addr,
            decreases n - i,
        {
            proof {
                lemma_position(self.connections@, addr);
            }
            if self.connections[i].addr == addr {
                return i;
            }
            i = i + 1;
        }
        i
    }

    /// Whether there is a connection to `addr`.
    pub fn is_connected(&self, addr: SocketAddress) -> (b: bool)
        ensures
            b == connected(self.connections(), addr),
    {
        proof {
            lemma_position(self.connections@, addr);
        }
        self.find(addr) < self.connections.len()
    }

    /// Takes up a connection to `addr`, unless there is one: a second
    /// connection to an address is refused, whoever opened it.
    pub fn register(&mut self, addr: SocketAddress, is_incoming: bool) -> (accepted: bool)
        requires
            old(self).wf(),
        ensures
            final(self).wf(),
            accepted == !connected(old(self).connections(), addr),
            final(self).connections() == if accepted {
                old(self).connections().push(ConnectionInfo { addr, is_incoming })
            } else {
                old(self).connections()
            },
            final(self).peers() == old(self).peers(),
            final(self).address() == old(self).address(),
    {
        if self.is_connected(addr) {
            false
        } else {
            self.connections.push(ConnectionInfo { addr, is_incoming });
            true
        }
    }

    /// Gives up the connection to `addr`, if there is one.
    pub fn release(&mut self, addr: SocketAddress) -> (removed: bool)
        requires
            old(self).wf(),
        ensures
            final(self).wf(),
            removed == connected(old(self).connections(), addr),
            !connected(final(self).connections(), addr),
            final(self).connections() == if removed {
                old(self).connections().remove(position(old(self).connections(), addr))
            } else {
                old(self).connections()
            },
            final(self).peers() == old(self).peers(),
            final(self).address() == old(self).address(),
    {
        proof {
            lemma_position(self.connections@, addr);
        }
        let i = self.find(addr);
        if i < self.connections.len() {
            self.connections.remove(i);
            true
        } else {
            false
        }
    }

    /// The live connections, oldest first.
    pub fn get_connections(&self) -> (out: Vec<ConnectionInfo>)
        ensures
            out@ == self.connections(),
    {
        let n: usize = self.connections.len();
        let mut out: Vec<ConnectionInfo> = Vec::new();
        let mut i: usize = 0;
        while i < n
            invariant
                i <= n,
                n == self.connections@.len(),
                out@ == self.connections@.take(i as int),
            decreases n - i,
        {
            out.push(self.connections[i]);
            i = i + 1;
        }
        out
    }
}

} // verus!
