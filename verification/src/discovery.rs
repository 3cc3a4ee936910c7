//! Service discovery: what this instance announces, and what it makes of
//! the services that the browser resolves.
//!
//! The multicast DNS daemon itself is driven from outside. This module
//! builds the record to register and turns each resolved service into a
//! candidate peer, or drops it.

use crate::ident::{format_uuid, parse_uuid, uuid_parse, uuid_text};
use crate::net::{IpAddress, SocketAddress};
use crate::text::{concat, option_text};
use std::collections::HashSet;
use vstd::prelude::*;

verus! {

/// The service type under which instances announce themselves.
pub const SERVICE_TYPE: &'static str = "_cursedboard._tcp.local.";

/// The protocol version announced in the `ver` record.
pub const PROTOCOL_VERSION: &'static str = "0.1.0";

/// A peer that discovery found and the connection manager may dial.
#[derive(Debug, Clone, PartialEq, Eq)]
pub struct DiscoveredPeer {
    pub instance_id: u128,
    pub device_name: String,
    pub address: SocketAddress,
    pub group: String,
}

pub ghost struct DiscoveredPeerView {
    pub instance_id: u128,
    pub device_name: Seq<char>,
    pub address: SocketAddress,
    pub group: Seq<char>,
}

impl View for DiscoveredPeer {
    type V = DiscoveredPeerView;

    open spec fn view(&self) -> DiscoveredPeerView {
        DiscoveredPeerView {
            instance_id: self.instance_id,
            device_name: self.device_name@,
            address: self.address,
            group: self.group@,
        }
    }
}

/// What a resolved service holds: the values of its `id`, `name` and
/// `group` records where it has them, its addresses in the order in which
/// the resolver gave them, and its port.
#[derive(Debug, Clone)]
pub struct ResolvedService {
    pub id: Option<String>,
    pub name: Option<String>,
    pub group: Option<String>,
    pub addresses: Vec<IpAddress>,
    pub port: u16,
}

pub ghost struct ResolvedServiceView {
    pub id: Option<Seq<char>>,
    pub name: Option<Seq<char>>,
    pub group: Option<Seq<char>>,
    pub addresses: Seq<IpAddress>,
    pub port: u16,
}

impl View for ResolvedService {
    type V = ResolvedServiceView;

    open spec fn view(&self) -> ResolvedServiceView {
        ResolvedServiceView {
            id: option_text(self.id),
            name: option_text(self.name),
            group: option_text(self.group),
            addresses: self.addresses@,
            port: self.port,
        }
    }
}

/// The first IPv4 address of a list.
pub open spec fn first_v4(addresses: Seq<IpAddress>) -> Option<IpAddress>
    decreases addresses.len(),
{
    if addresses.len() == 0 {
        None
    } else if addresses[0] is V4 {
        Some(addresses[0])
    } else {
        first_v4(addresses.drop_first())
    }
}

/// The address to dial: the first IPv4 address, or else the first address.
pub open spec fn preferred_address(addresses: Seq<IpAddress>) -> Option<IpAddress> {
    match first_v4(addresses) {
        Some(ip) => Some(ip),
        None => if addresses.len() > 0 {
            Some(addresses[0])
        } else {
            None
        },
    }
}

/// The candidate that a resolved service with identifier `id` stands for,
/// seen from the instance `self_id`: none for the instance itself, none
/// for a service without an address.
pub open spec fn candidate(id: u128, info: ResolvedServiceView, self_id: u128) -> Option<
    DiscoveredPeerView,
> {
    if id == self_id {
        None
    } else {
        match preferred_address(info.addresses) {
            None => None,
            Some(ip) => Some(
                DiscoveredPeerView {
                    instance_id: id,
                    device_name: match info.name {
                        Some(n) => n,
                        None => "unknown"@,
                    },
                    address: SocketAddress { ip, port: info.port },
                    group: match info.group {
                        Some(g) => g,
                        None => "default"@,
                    },
                },
            ),
        }
    }
}

/// The candidate that a resolved service stands for: none where the `id`
/// record is missing or is no identifier.
pub open spec fn parse_service(info: ResolvedServiceView, self_id: u128) -> Option<
    DiscoveredPeerView,
> {
    match info.id {
        None => None,
        Some(text) => match uuid_parse(text) {
            None => None,
            Some(id) => candidate(id, info, self_id),
        },
    }
}

pub open spec fn view_peer(p: Option<DiscoveredPeer>) -> Option<DiscoveredPeerView> {
    match p {
        Some(peer) => Some(peer@),
        None => None,
    }
}

/// The first IPv4 address of `addresses`, or else its first address.
pub fn pick_address(addresses: &Vec<IpAddress>) -> (r: Option<IpAddress>)
    ensures
        r == preferred_address(addresses@),
{
    let n: usize = addresses.len();
    let mut i: usize = 0;
    assert(addresses@.skip(0) =~= addresses@);
    while i < n
        invariant
            i <= n,
            n == addresses@.len(),
            first_v4(addresses@) == first_v4(addresses@.skip(i as int)),
        decreases n - i,
    {
        let ip = addresses[i];
        let ghost rest = addresses@.skip(i as int);
        match ip {
            IpAddress::V4(_) => {
                return Some(ip);
            },
            IpAddress::V6(_) => {
                assert(rest.drop_first() =~= addresses@.skip(i + 1));
            },
        }
        i = i + 1;
    }
    if n > 0 {
        Some(addresses[0])
    } else {
        None
    }
}

/// The candidate peer for a resolved service whose `id` record read as
/// `id`.
pub fn candidate_peer(id: u128, info: &ResolvedService, self_id: u128) -> (r: Option<
    DiscoveredPeer,
>)
    ensures
        view_peer(r) == candidate(id, info@, self_id),
{
    if id == self_id {
        return None;
    }
    let ip = match pick_address(&info.addresses) {
        Some(ip) => ip,
        None => {
            return None;
        },
    };
    let device_name = match &info.name {
        Some(n) => n.clone(),
        None => "unknown".to_string(),
    };
    let group = match &info.group {
        Some(g) => g.clone(),
        None => "default".to_string(),
    };
    Some(
        DiscoveredPeer {
            instance_id: id,
            device_name,
            address: SocketAddress { ip, port: info.port },
            group,
        },
    )
}

/// One record of a service's TXT data.
#[derive(Debug, Clone, PartialEq, Eq)]
pub struct TxtRecord {
    pub key: String,
    pub value: String,
}

/// What an instance registers with the daemon.
#[derive(Debug, Clone)]
pub struct ServiceRegistration {
    pub service_type: String,
    pub instance_name: String,
    pub port: u16,
    pub properties: Vec<TxtRecord>,
}

/// The instance name of a service: the device name, an underscore, the
/// identifier.
pub open spec fn instance_name(device_name: Seq<char>, id: u128) -> Seq<char> {
    device_name + "_"@ + uuid_text(id)
}

/// The TXT data of an instance, as keys and values in order.
pub open spec fn txt_records(id: u128, device_name: Seq<char>, group: Seq<char>) -> Seq<
    (Seq<char>, Seq<char>),
> {
    seq![
        ("id"@, uuid_text(id)),
        ("name"@, device_name),
        ("ver"@, PROTOCOL_VERSION@),
        ("group"@, group),
        ("features"@, "text"@),
    ]
}

pub open spec fn view_records(records: Seq<TxtRecord>) -> Seq<(Seq<char>, Seq<char>)> {
    Seq::new(records.len(), |i: int| (records[i].key@, records[i].value@))
}

fn record(key: &str, value: String) -> (r: TxtRecord)
    ensures
        r.key@ == key@,
        r.value@ == value@,
{
    TxtRecord { key: key.to_string(), value }
}

/// The state of the browser: who we are and whom we have reported.
#[derive(Debug)]
pub struct DiscoveryManager {
    self_id: u128,
    seen: HashSet<u128>,
}

impl DiscoveryManager {
    /// The identifier that the browser leaves out.
    pub closed spec fn self_id(&self) -> u128 {
        self.self_id
    }

    /// The identifiers reported so far.
    pub closed spec fn seen(&self) -> Set<u128> {
        self.seen@
    }

    /// A browser for the instance `instance_id` that has reported nobody.
    pub fn new(instance_id: u128) -> (manager: DiscoveryManager)
        ensures
            manager.self_id() == instance_id,
            manager.seen() == Set::<u128>::empty(),
    {
        DiscoveryManager { self_id: instance_id, seen: HashSet::new() }
    }

    /// The service that the instance announces on `port`.
    pub fn registration(instance_id: u128, device_name: &str, port: u16, group: &str) -> (r:
        ServiceRegistration)
        ensures
            r.service_type@ == SERVICE_TYPE@,
            r.instance_name@ == instance_name(device_name@, instance_id),
            r.port == port,
            view_records(r.properties@) == txt_records(instance_id, device_name@, group@),
            r.properties@.len() == 5,
            uuid_parse(r.properties@[0].value@) == Some(instance_id),
    {
        let id_text = format_uuid(instance_id);
        let mut name = concat(device_name, "_");
        name.append(id_text.as_str());
        let mut properties: Vec<TxtRecord> = Vec::new();
        properties.push(record("id", id_text));
        properties.push(record("name", device_name.to_string()));
        properties.push(record("ver", PROTOCOL_VERSION.to_string()));
        properties.push(record("group", group.to_string()));
        properties.push(record("features", "text".to_string()));
        ServiceRegistration {
            service_type: SERVICE_TYPE.to_string(),
            instance_name: name,
            port,
            properties,
        }
    }

    /// Reads a resolved service as a candidate peer, seen from `self_id`.
    pub fn parse_service_info(info: &ResolvedService, self_id: u128) -> (r: Option<
        DiscoveredPeer,
    >)
        ensures
            view_peer(r) == parse_service(info@, self_id),
    {
        let text = match &info.id {
            Some(t) => t,
            None => {
                return None;
            },
        };
        match parse_uuid(text.as_str()) {
            Some(id) => candidate_peer(id, info, self_id),
            None => None,
        }
    }

    /// One resolved service: the candidate to hand on, unless the service
    /// is this instance or was reported before.
    pub fn handle_resolved(&mut self, info: &ResolvedService) -> (r: Option<DiscoveredPeer>)
        ensures
            final(self).self_id() == old(self).self_id(),
            (final(self).seen(), view_peer(r)) == browse_step(
                old(self).self_id(),
                old(self).seen(),
                info@,
            ),
    {
        broadcast use vstd::std_specs::hash::group_hash_axioms;

        match DiscoveryManager::parse_service_info(info, self.self_id) {
            Some(peer) => {
                if self.seen.contains(&peer.instance_id) {
                    None
                } else {
                    self.seen.insert(peer.instance_id);
                    Some(peer)
                }
            },
            None => None,
        }
    }
}

/// The browser as a function: whom it has reported after a service, and
/// whom it reports for it.
pub open spec fn browse_step(self_id: u128, seen: Set<u128>, info: ResolvedServiceView) -> (
    Set<u128>,
    Option<DiscoveredPeerView>,
) {
    match parse_service(info, self_id) {
        Some(p) => if seen.contains(p.instance_id) {
            (seen, None)
        } else {
            (seen.insert(p.instance_id), Some(p))
        },
        None => (seen, None),
    }
}

/// Whom the browser has reported after a run of services.
pub open spec fn seen_after(self_id: u128, seen: Set<u128>, services: Seq<ResolvedServiceView>) -> Set<
    u128,
>
    decreases services.len(),
{
    if services.len() == 0 {
        seen
    } else {
        browse_step(
            self_id,
            seen_after(self_id, seen, services.drop_last()),
            services.last(),
        ).0
    }
}

/// The identifiers that the browser reports for a run of services, in
/// order.
pub open spec fn reported(self_id: u128, seen: Set<u128>, services: Seq<ResolvedServiceView>) -> Seq<
    u128,
>
    decreases services.len(),
{
    if services.len() == 0 {
        Seq::empty()
    } else {
        let before = reported(self_id, seen, services.drop_last());
        match browse_step(
            self_id,
            seen_after(self_id, seen, services.drop_last()),
            services.last(),
        ).1 {
            Some(p) => before.push(p.instance_id),
            None => before,
        }
    }
}

/// Whatever services are resolved, in whatever order and however often,
/// no identifier is reported twice, none that was reported before the run,
/// and never the instance's own.
pub proof fn lemma_reported_once(self_id: u128, seen: Set<u128>, services: Seq<ResolvedServiceView>)
    ensures
        reported(self_id, seen, services).no_duplicates(),
        forall|i: int|
            0 <= i < reported(self_id, seen, services).len() ==> {
                let id = #[trigger] reported(self_id, seen, services)[i];
                &&& id != self_id
                &&& !seen.contains(id)
                &&& seen_after(self_id, seen, services).contains(id)
            },
        forall|id: u128| seen.contains(id) ==> seen_after(self_id, seen, services).contains(id),
    decreases services.len(),
{
    if services.len() > 0 {
        lemma_reported_once(self_id, seen, services.drop_last());
    }
}

/// A service whose `id` record reads as the local identifier is no
/// candidate, whatever else it holds.
pub proof fn lemma_self_discovery_ignored(info: ResolvedServiceView, self_id: u128)
    requires
        info.id matches Some(text) && uuid_parse(text) == Some(self_id),
    ensures
        parse_service(info, self_id) is None,
{
}

} // verus!
