use cursedboard::discovery::{
    candidate_peer, pick_address, DiscoveredPeer, DiscoveryManager, ResolvedService, TxtRecord,
    PROTOCOL_VERSION, SERVICE_TYPE,
};
use cursedboard::net::{IpAddress, SocketAddress};

const SELF_ID: u128 = 1;

fn service(id: Option<&str>, addresses: Vec<IpAddress>) -> ResolvedService {
    ResolvedService {
        id: id.map(String::from),
        name: Some("bee".to_string()),
        group: Some("g".to_string()),
        addresses,
        port: 42069,
    }
}

const ID_TWO: &str = "00000000-0000-0000-0000-000000000002";
const ID_ONE: &str = "00000000-0000-0000-0000-000000000001";

#[test]
fn registration_record() {
    let r = DiscoveryManager::registration(2, "bee", 42069, "g");
    assert_eq!(SERVICE_TYPE, "_cursedboard._tcp.local.");
    assert_eq!(r.service_type, "_cursedboard._tcp.local.");
    assert_eq!(r.instance_name, "bee_00000000-0000-0000-0000-000000000002");
    assert_eq!(r.port, 42069);
    let expected: Vec<TxtRecord> = [
        ("id", ID_TWO),
        ("name", "bee"),
        ("ver", PROTOCOL_VERSION),
        ("group", "g"),
        ("features", "text"),
    ]
    .iter()
    .map(|(k, v)| TxtRecord { key: k.to_string(), value: v.to_string() })
    .collect();
    assert_eq!(r.properties, expected);
}

#[test]
fn parse_resolved_service() {
    let info = service(Some(ID_TWO), vec![IpAddress::V4(0x0a00_0002)]);
    assert_eq!(
        DiscoveryManager::parse_service_info(&info, SELF_ID),
        Some(DiscoveredPeer {
            instance_id: 2,
            device_name: "bee".to_string(),
            address: SocketAddress::new(IpAddress::V4(0x0a00_0002), 42069),
            group: "g".to_string(),
        })
    );
}

#[test]
fn missing_records_get_defaults() {
    let info = ResolvedService {
        id: Some(ID_TWO.to_string()),
        name: None,
        group: None,
        addresses: vec![IpAddress::V6(1)],
        port: 7,
    };
    assert_eq!(
        DiscoveryManager::parse_service_info(&info, SELF_ID),
        Some(DiscoveredPeer {
            instance_id: 2,
            device_name: "unknown".to_string(),
            address: SocketAddress::new(IpAddress::V6(1), 7),
            group: "default".to_string(),
        })
    );
}

#[test]
fn services_that_are_no_candidates() {
    let addresses = vec![IpAddress::V4(1)];
    assert_eq!(DiscoveryManager::parse_service_info(&service(None, addresses.clone()), SELF_ID), None);
    assert_eq!(
        DiscoveryManager::parse_service_info(&service(Some("zzz"), addresses.clone()), SELF_ID),
        None
    );
    assert_eq!(
        DiscoveryManager::parse_service_info(&service(Some(ID_ONE), addresses.clone()), SELF_ID),
        None
    );
    assert_eq!(DiscoveryManager::parse_service_info(&service(Some(ID_TWO), vec![]), SELF_ID), None);
    assert_eq!(candidate_peer(SELF_ID, &service(None, addresses.clone()), SELF_ID), None);
    assert!(candidate_peer(5, &service(None, addresses), SELF_ID).is_some());
}

#[test]
fn own_registration_is_ignored() {
    let r = DiscoveryManager::registration(SELF_ID, "me", 1, "g");
    let info = ResolvedService {
        id: Some(r.properties[0].value.clone()),
        name: Some(r.properties[1].value.clone()),
        group: Some(r.properties[3].value.clone()),
        addresses: vec![IpAddress::V4(1)],
        port: r.port,
    };
    assert_eq!(DiscoveryManager::parse_service_info(&info, SELF_ID), None);
    assert!(DiscoveryManager::parse_service_info(&info, 2).is_some());
}

#[test]
fn ipv4_is_preferred() {
    assert_eq!(pick_address(&vec![]), None);
    assert_eq!(pick_address(&vec![IpAddress::V6(9)]), Some(IpAddress::V6(9)));
    assert_eq!(
        pick_address(&vec![IpAddress::V6(9), IpAddress::V6(8)]),
        Some(IpAddress::V6(9))
    );
    assert_eq!(
        pick_address(&vec![IpAddress::V6(9), IpAddress::V4(7), IpAddress::V4(6)]),
        Some(IpAddress::V4(7))
    );
    assert_eq!(
        pick_address(&vec![IpAddress::V4(5), IpAddress::V6(9)]),
        Some(IpAddress::V4(5))
    );
    assert_eq!(IpAddress::unspecified(), IpAddress::V4(0));
}

#[test]
fn each_peer_is_reported_once() {
    let mut browser = DiscoveryManager::new(SELF_ID);
    let two = service(Some(ID_TWO), vec![IpAddress::V4(2)]);
    let three = service(Some("00000000-0000-0000-0000-000000000003"), vec![IpAddress::V4(3)]);
    let me = service(Some(ID_ONE), vec![IpAddress::V4(1)]);
    assert_eq!(browser.handle_resolved(&me), None);
    assert_eq!(browser.handle_resolved(&two).map(|p| p.instance_id), Some(2));
    assert_eq!(browser.handle_resolved(&two), None);
    assert_eq!(browser.handle_resolved(&three).map(|p| p.instance_id), Some(3));
    assert_eq!(browser.handle_resolved(&three), None);
    assert_eq!(browser.handle_resolved(&two), None);
    // A service without an address is not remembered.
    let four = "00000000-0000-0000-0000-000000000004";
    assert_eq!(browser.handle_resolved(&service(Some(four), vec![])), None);
    assert_eq!(
        browser.handle_resolved(&service(Some(four), vec![IpAddress::V6(4)])).map(|p| p.instance_id),
        Some(4)
    );
}

#[test]
fn identifiers_are_read_in_every_form() {
    let forms = [
        "a1a2a3a4-b1b2-c1c2-d1d2-d3d4d5d6d7d8",
        "A1A2A3A4B1B2C1C2D1D2D3D4D5D6D7D8",
        "{a1a2a3a4-b1b2-c1c2-d1d2-d3d4d5d6d7d8}",
        "urn:uuid:a1a2a3a4-b1b2-c1c2-d1d2-d3d4d5d6d7d8",
    ];
    for form in forms {
        let info = service(Some(form), vec![IpAddress::V4(1)]);
        assert_eq!(
            DiscoveryManager::parse_service_info(&info, SELF_ID).map(|p| p.instance_id),
            Some(0xa1a2a3a4b1b2c1c2d1d2d3d4d5d6d7d8)
        );
    }
    for bad in ["", "not-an-id", "a1a2a3a4-b1b2-c1c2-d1d2-d3d4d5d6d7d", "g1a2a3a4-b1b2-c1c2-d1d2-d3d4d5d6d7d8"] {
        let info = service(Some(bad), vec![IpAddress::V4(1)]);
        assert_eq!(DiscoveryManager::parse_service_info(&info, SELF_ID), None);
    }
    let r = DiscoveryManager::registration(u128::MAX, "x", 1, "g");
    assert_eq!(r.properties[0].value, "ffffffff-ffff-ffff-ffff-ffffffffffff");
    assert_eq!(r.instance_name, "x_ffffffff-ffff-ffff-ffff-ffffffffffff");
}
