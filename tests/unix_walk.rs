use ifaces::model::{EnumerationError, Interface, Kind, NextHop, SocketAddress};
use ifaces::unix::{
    ifaces, interface_of_node, nix_socketaddr_to_sockaddr, union_ifa_ifu, walk, ifaddrs,
    RawSockaddr, Step, SIOCGIFFLAGS,
};

fn v4_record(ip: [u8; 4], port: u16) -> RawSockaddr {
    let fam = (libc::AF_INET as u16).to_le_bytes();
    let p = port.to_le_bytes();
    let mut bytes = vec![fam[0], fam[1], p[0], p[1], ip[0], ip[1], ip[2], ip[3]];
    bytes.extend_from_slice(&[0u8; 8]);
    RawSockaddr { family: libc::AF_INET, bytes }
}

fn v6_record(ip: [u8; 16], port: u16) -> RawSockaddr {
    let fam = (libc::AF_INET6 as u16).to_le_bytes();
    let p = port.to_le_bytes();
    let mut bytes = vec![fam[0], fam[1], p[0], p[1], 0, 0, 0, 0];
    bytes.extend_from_slice(&ip);
    bytes.extend_from_slice(&[0u8; 4]);
    RawSockaddr { family: libc::AF_INET6, bytes }
}

fn node(name: &str, flags: u32, addr: Option<RawSockaddr>, ifu: Option<RawSockaddr>) -> ifaddrs {
    ifaddrs {
        ifa_name: name.as_bytes().to_vec(),
        ifa_flags: flags,
        ifa_addr: addr,
        ifa_netmask: Some(v4_record([255, 0, 0, 0], 0)),
        ifa_ifu: union_ifa_ifu { data: ifu },
    }
}

fn lo() -> SocketAddress {
    SocketAddress::V4 { ip: [127, 0, 0, 1], port: 0 }
}

#[test]
fn null_record_decodes_to_absent() {
    assert_eq!(nix_socketaddr_to_sockaddr(&None), None);
}

#[test]
fn ipv4_record_decodes_in_byte_order() {
    let r = nix_socketaddr_to_sockaddr(&Some(v4_record([192, 168, 1, 20], 0)));
    assert_eq!(r, Some(SocketAddress::V4 { ip: [192, 168, 1, 20], port: 0 }));
}

#[test]
fn ipv4_record_keeps_stored_port() {
    let r = nix_socketaddr_to_sockaddr(&Some(v4_record([10, 0, 0, 1], 0x1234)));
    assert_eq!(r, Some(SocketAddress::V4 { ip: [10, 0, 0, 1], port: 0x1234 }));
}

#[test]
fn ipv6_record_decodes_groups_unswapped() {
    let mut ip = [0u8; 16];
    ip[0] = 0xfe;
    ip[1] = 0x80;
    ip[14] = 0x12;
    ip[15] = 0x34;
    let r = nix_socketaddr_to_sockaddr(&Some(v6_record(ip, 0)));
    assert_eq!(
        r,
        Some(SocketAddress::V6 { ip: [0xfe80, 0, 0, 0, 0, 0, 0, 0x1234], port: 0, scope_id: 0 })
    );
}

#[test]
fn other_family_decodes_to_absent() {
    let rec = RawSockaddr { family: libc::AF_PACKET, bytes: vec![0u8; 20] };
    assert_eq!(nix_socketaddr_to_sockaddr(&Some(rec)), None);
}

#[test]
fn short_record_decodes_to_absent() {
    let rec = RawSockaddr { family: libc::AF_INET, bytes: vec![2, 0, 0, 0] };
    assert_eq!(nix_socketaddr_to_sockaddr(&Some(rec)), None);
}

#[test]
fn scenario_destination_hop() {
    let nodes = vec![
        node("lo", 0x1, Some(v4_record([127, 0, 0, 1], 0)), Some(v4_record([127, 0, 0, 1], 0))),
        node("lo", 0x1, None, None),
    ];
    let r = walk(&nodes);
    assert_eq!(r.len(), 1);
    assert_eq!(r[0].name, "lo");
    assert_eq!(r[0].kind, Kind::Ipv4);
    assert_eq!(r[0].addr, Some(lo()));
    assert_eq!(r[0].mask, Some(SocketAddress::V4 { ip: [255, 0, 0, 0], port: 0 }));
    assert_eq!(r[0].hop, Some(NextHop::Destination(lo())));
}

#[test]
fn scenario_broadcast_hop() {
    let flags = SIOCGIFFLAGS::IFF_UP.bits() | SIOCGIFFLAGS::IFF_BROADCAST.bits();
    let nodes = vec![
        node("eth0", flags, Some(v4_record([127, 0, 0, 1], 0)), Some(v4_record([127, 255, 255, 255], 0))),
        node("eth0", flags, None, None),
    ];
    let r = walk(&nodes);
    assert_eq!(r.len(), 1);
    assert_eq!(r[0].kind, Kind::Ipv4);
    assert_eq!(r[0].addr, Some(lo()));
    let bcast = SocketAddress::V4 { ip: [127, 255, 255, 255], port: 0 };
    assert_eq!(r[0].hop, Some(NextHop::Broadcast(bcast)));
}

#[test]
fn absent_peer_gives_no_hop() {
    let nodes = vec![node("lo", 0, Some(v4_record([127, 0, 0, 1], 0)), None)];
    let r = walk(&nodes);
    assert_eq!(r.len(), 1);
    assert_eq!(r[0].hop, None);
}

#[test]
fn packet_family_is_kept_without_address() {
    let pkt = RawSockaddr { family: libc::AF_PACKET, bytes: vec![0u8; 20] };
    let mut n = node("eth0", 0, Some(pkt), None);
    n.ifa_netmask = None;
    let r = walk(&vec![n]);
    assert_eq!(r.len(), 1);
    assert_eq!(r[0].kind, Kind::Packet);
    assert_eq!(r[0].addr, None);
    assert_eq!(r[0].mask, None);
}

#[test]
fn unknown_kind_is_dropped_and_walk_goes_on() {
    let netlink = RawSockaddr { family: libc::AF_NETLINK, bytes: vec![0u8; 12] };
    let nodes = vec![
        node("nl", 0, Some(netlink), None),
        node("lo", 0, Some(v4_record([127, 0, 0, 1], 0)), None),
    ];
    let r = walk(&nodes);
    assert_eq!(r.len(), 1);
    assert_eq!(r[0].name, "lo");
    assert!(r.iter().all(|i: &Interface| i.kind != Kind::Unknown));
}

#[test]
fn unrecognized_family_stops_walk() {
    let odd = RawSockaddr { family: 99, bytes: vec![0u8; 16] };
    let nodes = vec![
        node("a", 0, Some(v4_record([10, 0, 0, 1], 0)), None),
        node("b", 0, Some(odd), None),
        node("c", 0, Some(v4_record([10, 0, 0, 2], 0)), None),
    ];
    let r = walk(&nodes);
    assert_eq!(r.len(), 1);
    assert_eq!(r[0].name, "a");
}

#[test]
fn undecodable_name_stops_walk() {
    let mut bad = node("x", 0, Some(v4_record([10, 0, 0, 2], 0)), None);
    bad.ifa_name = vec![0xff, 0xfe];
    let nodes = vec![
        node("a", 0, Some(v4_record([10, 0, 0, 1], 0)), None),
        bad,
        node("c", 0, Some(v4_record([10, 0, 0, 3], 0)), None),
    ];
    let r = walk(&nodes);
    assert_eq!(r.len(), 1);
    assert_eq!(r[0].name, "a");
}

#[test]
fn null_address_stops_walk() {
    let nodes = vec![
        node("a", 0, None, None),
        node("b", 0, Some(v4_record([10, 0, 0, 1], 0)), None),
    ];
    assert!(walk(&nodes).is_empty());
}

#[test]
fn node_step_takes_decoded_name() {
    let n = node("ignored", 0, Some(v4_record([10, 0, 0, 1], 0)), None);
    match interface_of_node(&n, Some("given".to_string())) {
        Step::Emit(i) => assert_eq!(i.name, "given"),
        _ => panic!("expected an interface"),
    }
    assert!(matches!(interface_of_node(&n, None), Step::Stop));
}

#[test]
fn failed_status_is_an_error() {
    let nodes = vec![node("lo", 0, Some(v4_record([127, 0, 0, 1], 0)), None)];
    assert_eq!(ifaces(-1, &nodes), Err(EnumerationError::Failed));
    assert_eq!(ifaces(0, &nodes).unwrap().len(), 1);
}

#[test]
fn empty_list_gives_empty_result() {
    assert_eq!(ifaces(0, &Vec::new()), Ok(Vec::new()));
}

#[test]
fn flag_bits() {
    assert_eq!(SIOCGIFFLAGS::IFF_BROADCAST.bits(), 0x2);
    assert_eq!(SIOCGIFFLAGS::IFF_DYNAMIC.bits(), 0x8000);
    assert!(SIOCGIFFLAGS::IFF_POINTOPOINT.is_set(0x11));
    assert!(!SIOCGIFFLAGS::IFF_BROADCAST.is_set(0x11));
}
