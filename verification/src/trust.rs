//! The trust store: the peers that were ever accepted.

use std::collections::HashMap;
use vstd::prelude::*;

verus! {

/// A peer that was accepted once, with the name it gave then and the time,
/// in seconds since the Unix epoch, at which it was first accepted.
#[derive(Debug, Clone, PartialEq, Eq)]
pub struct TrustedPeer {
    pub name: String,
    pub first_seen: u64,
}

pub ghost struct TrustedPeerView {
    pub name: Seq<char>,
    pub first_seen: u64,
}

impl View for TrustedPeer {
    type V = TrustedPeerView;

    open spec fn view(&self) -> TrustedPeerView {
        TrustedPeerView { name: self.name@, first_seen: self.first_seen }
    }
}

/// Peers by identifier. An identifier occurs at most once, and an entry,
/// once made, is never changed or removed.
#[derive(Debug)]
pub struct TrustStore {
    peers: HashMap<u128, TrustedPeer>,
    order: Vec<u128>,
}

impl View for TrustStore {
    type V = Map<u128, TrustedPeerView>;

    closed spec fn view(&self) -> Map<u128, TrustedPeerView> {
        self.peers@.map_values(|p: TrustedPeer| p@)
    }
}

impl TrustStore {
    /// The identifiers in the order in which they were trusted.
    pub closed spec fn order(&self) -> Seq<u128> {
        self.order@
    }

    /// What holds of every store that the functions below hand out: the
    /// order lists each trusted identifier once and nothing else.
    pub closed spec fn wf(&self) -> bool {
        &&& self.order@.no_duplicates()
        &&& forall|id: u128| self.order@.contains(id) <==> self.peers@.contains_key(id)
    }

    pub proof fn lemma_order_lists_domain(&self)
        requires
            self.wf(),
        ensures
            self.order().no_duplicates(),
            forall|id: u128| self.order().contains(id) <==> self@.contains_key(id),
    {
    }

    /// The empty store.
    pub fn new() -> (store: TrustStore)
        ensures
            store@ == Map::<u128, TrustedPeerView>::empty(),
            store.order() == Seq::<u128>::empty(),
            store.wf(),
    {
        TrustStore { peers: HashMap::new(), order: Vec::new() }
    }

    pub fn is_trusted(&self, id: &u128) -> (b: bool)
        ensures
            b == self@.contains_key(*id),
    {
        broadcast use vstd::std_specs::hash::group_hash_axioms;

        self.peers.contains_key(id)
    }

    pub fn is_empty(&self) -> (b: bool)
        requires
            self.wf(),
        ensures
            b == (self@ == Map::<u128, TrustedPeerView>::empty()),
    {
        broadcast use vstd::std_specs::hash::group_hash_axioms;

        proof {
            if self.order@.len() == 0 {
                assert forall|k: u128| !self.peers@.contains_key(k) by {
                    assert(!self.order@.contains(k));
                }
                assert(self@ =~= Map::<u128, TrustedPeerView>::empty());
            } else {
                assert(self.order@.contains(self.order@[0]));
                assert(self@.contains_key(self.order@[0]));
            }
        }
        self.order.len() == 0
    }

    /// The number of trusted peers.
    pub fn len(&self) -> (n: usize)
        ensures
            n == self.order().len(),
    {
        self.order.len()
    }

    /// Trusts `id` under `name` from time `now` on, unless it is trusted
    /// already: an existing entry is left as it is.
    pub fn trust(&mut self, id: u128, name: String, now: u64)
        requires
            old(self).wf(),
        ensures
            final(self)@ == if old(self)@.contains_key(id) {
                old(self)@
            } else {
                old(self)@.insert(id, TrustedPeerView { name: name@, first_seen: now })
            },
            final(self).order() == if old(self)@.contains_key(id) {
                old(self).order()
            } else {
                old(self).order().push(id)
            },
            final(self).wf(),
    {
        broadcast use vstd::std_specs::hash::group_hash_axioms;

        if !self.peers.contains_key(&id) {
            let peer = TrustedPeer { name, first_seen: now };
            let ghost order_before = self.order@;
            self.peers.insert(id, peer);
            self.order.push(id);
            proof {
                assert forall|x: u128| self.order@.contains(x) <==> self.peers@.contains_key(
                    x,
                ) by {
                    if x == id {
                        assert(self.order@[order_before.len() as int] == id);
                    } else if order_before.contains(x) {
                        let i = choose|i: int| 0 <= i < order_before.len() && order_before[i] == x;
                        assert(self.order@[i] == x);
                    }
                }
                assert(self.order@.no_duplicates()) by {
                    assert forall|i: int, j: int|
                        0 <= i < self.order@.len() && 0 <= j < self.order@.len() && i
                            != j implies self.order@[i] != self.order@[j] by {
                        if i < order_before.len() && j < order_before.len() {
                        } else if i < order_before.len() {
                            assert(order_before.contains(order_before[i]));
                        } else if j < order_before.len() {
                            assert(order_before.contains(order_before[j]));
                        }
                    }
                }
            }
        }
    }

    /// The entry of `id`, if it is trusted.
    pub fn get(&self, id: &u128) -> (r: Option<&TrustedPeer>)
        ensures
            match r {
                Some(p) => self@.contains_key(*id) && self@[*id] == p@,
                None => !self@.contains_key(*id),
            },
    {
        broadcast use vstd::std_specs::hash::group_hash_axioms;

        self.peers.get(id)
    }

    /// The trusted identifiers, oldest first.
    pub fn ids(&self) -> (out: Vec<u128>)
        ensures
            out@ == self.order(),
    {
        let n: usize = self.order.len();
        let mut out: Vec<u128> = Vec::new();
        let mut i: usize = 0;
        while i < n
            invariant
                i <= n,
                n == self.order@.len(),
                out@ == self.order@.take(i as int),
            decreases n - i,
        {
            out.push(self.order[i]);
            i = i + 1;
        }
        out
    }
}

/// Whatever is trusted afterwards, and however often, an entry keeps the
/// name and the time of its first acceptance.
pub proof fn lemma_trust_keeps_existing(
    store: Map<u128, TrustedPeerView>,
    id: u128,
    other: u128,
    name: Seq<char>,
    now: u64,
)
    requires
        store.contains_key(id),
    ensures
        trust_step(store, other, name, now).contains_key(id),
        trust_step(store, other, name, now)[id] == store[id],
{
}

/// The store after `trust(id, name, now)`.
pub open spec fn trust_step(
    store: Map<u128, TrustedPeerView>,
    id: u128,
    name: Seq<char>,
    now: u64,
) -> Map<u128, TrustedPeerView> {
    if store.contains_key(id) {
        store
    } else {
        store.insert(id, TrustedPeerView { name, first_seen: now })
    }
}

} // verus!
