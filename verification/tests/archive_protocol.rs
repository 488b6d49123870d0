use rkyv::adapters::Fallible;
use rkyv::addr::{IpAddr, Ipv4Addr, Ipv6Addr, SocketAddr, SocketAddrV4, SocketAddrV6};
use rkyv::archived::{
    ArchivedIpAddr, ArchivedIpv4Addr, ArchivedIpv6Addr, ArchivedSocketAddr, ArchivedSocketAddrV4,
    ArchivedSocketAddrV6,
};

struct NoopBackend;

impl Fallible for NoopBackend {
    type Error = ();
}

#[test]
fn ipv4_resolve_writes_octets_verbatim() {
    let v = Ipv4Addr::new(192, 168, 1, 7);
    let mut buf = vec![0xAAu8; 8];
    v.resolve(2, (), &mut buf);
    assert_eq!(buf, vec![0xAA, 0xAA, 192, 168, 1, 7, 0xAA, 0xAA]);
}

#[test]
fn ipv4_round_trip() {
    let v = Ipv4Addr::new(10, 20, 30, 40);
    let mut buf = vec![0u8; 4];
    v.resolve(0, (), &mut buf);
    let a = ArchivedIpv4Addr::read(&buf, 0);
    assert_eq!(a.octets(), [10, 20, 30, 40]);
    let mut backend = NoopBackend;
    let d = a.deserialize(&mut backend).unwrap();
    assert_eq!(d.octets(), v.octets());
    assert!(d == v);
}

#[test]
fn ipv6_resolve_stores_segments_big_endian() {
    let v = Ipv6Addr::new(0x2001, 0x0db8, 0, 0, 0, 0, 0, 1);
    let mut buf = vec![0u8; 16];
    v.resolve(0, (), &mut buf);
    assert_eq!(
        buf,
        vec![0x20, 0x01, 0x0d, 0xb8, 0, 0, 0, 0, 0, 0, 0, 0, 0, 0, 0x00, 0x01]
    );
}

#[test]
fn first_segment_one_serializes_as_00_01() {
    let v = Ipv6Addr::new(1, 0, 0, 0, 0, 0, 0, 0);
    let mut buf = vec![0xAAu8; 16];
    v.resolve(0, (), &mut buf);
    assert_eq!(buf[0], 0x00);
    assert_eq!(buf[1], 0x01);
    let a = ArchivedIpv6Addr::read(&buf, 0);
    assert_eq!(a.segments()[0], 1);
    let mut backend = NoopBackend;
    let d = a.deserialize(&mut backend).unwrap();
    assert!(d == v);
}

#[test]
fn ipv6_round_trip() {
    let v = Ipv6Addr::new(0xfe80, 0x1234, 0x5678, 0x9abc, 0xdef0, 0x0fed, 0xcba9, 0x8765);
    let mut buf = vec![0u8; 16];
    v.resolve(0, (), &mut buf);
    let a = ArchivedIpv6Addr::read(&buf, 0);
    assert_eq!(a.segments(), v.segments());
    let mut backend = NoopBackend;
    let d = a.deserialize(&mut backend).unwrap();
    assert!(d == v);
}

#[test]
fn ip_addr_v4_tag_is_zero_and_tail_is_zero_filled() {
    let v = IpAddr::V4(Ipv4Addr::new(127, 0, 0, 1));
    let mut buf = vec![0xAAu8; 17];
    v.resolve(0, (), &mut buf);
    assert_eq!(buf[0], 0);
    assert_eq!(&buf[1..5], &[127, 0, 0, 1]);
    assert_eq!(&buf[5..17], &[0u8; 12]);
    let a = ArchivedIpAddr::read(&buf, 0);
    assert!(a.is_ipv4());
    assert!(!a.is_ipv6());
    let mut backend = NoopBackend;
    let d = a.deserialize(&mut backend).unwrap();
    assert!(d == v);
}

#[test]
fn ip_addr_v6_tag_is_one() {
    let v = IpAddr::V6(Ipv6Addr::new(0xff02, 0, 0, 0, 0, 0, 0, 2));
    let mut buf = vec![0xAAu8; 17];
    v.resolve(0, (), &mut buf);
    assert_eq!(buf[0], 1);
    assert_eq!(&buf[1..3], &[0xff, 0x02]);
    let a = ArchivedIpAddr::read(&buf, 0);
    assert!(a.is_ipv6());
    assert!(!a.is_ipv4());
    let mut backend = NoopBackend;
    let d = a.deserialize(&mut backend).unwrap();
    assert!(d == v);
}

#[test]
fn endpoint_with_loopback_v4_round_trips() {
    let v = SocketAddrV4::new(Ipv4Addr::new(127, 0, 0, 1), 8080);
    let mut buf = vec![0u8; 6];
    v.resolve(0, (), &mut buf);
    // Address verbatim, then the port 8080 = 0x1f90 little-endian.
    assert_eq!(buf, vec![127, 0, 0, 1, 0x90, 0x1f]);
    let a = ArchivedSocketAddrV4::read(&buf, 0);
    assert!(a.ip().is_loopback());
    assert_eq!(a.port(), 8080);
    let mut backend = NoopBackend;
    let d = a.deserialize(&mut backend).unwrap();
    assert!(d == v);
    assert_eq!(d.ip.octets(), [127, 0, 0, 1]);
    assert_eq!(d.port, 8080);
}

#[test]
fn endpoint_with_loopback_v6_round_trips() {
    let v = SocketAddrV6::new(Ipv6Addr::new(0, 0, 0, 0, 0, 0, 0, 1), 443, 0, 0);
    let mut buf = vec![0xAAu8; 26];
    v.resolve(0, (), &mut buf);
    // Fifteen zero bytes, a one, then 443 = 0x01bb little-endian,
    // then zero flow information and zero scope identifier.
    let mut expected = vec![0u8; 26];
    expected[15] = 1;
    expected[16] = 0xbb;
    expected[17] = 0x01;
    assert_eq!(buf, expected);
    let a = ArchivedSocketAddrV6::read(&buf, 0);
    assert!(a.ip().is_loopback());
    assert_eq!(a.port(), 443);
    assert_eq!(a.flowinfo(), 0);
    assert_eq!(a.scope_id(), 0);
    let mut backend = NoopBackend;
    let d = a.deserialize(&mut backend).unwrap();
    assert!(d == v);
    assert_eq!(d.ip.segments(), [0, 0, 0, 0, 0, 0, 0, 1]);
    assert_eq!(d.port, 443);
    assert_eq!(d.flowinfo, 0);
    assert_eq!(d.scope_id, 0);
}

#[test]
fn endpoint_union_tags_follow_declaration_order() {
    let v4 = SocketAddr::V4(SocketAddrV4::new(Ipv4Addr::new(8, 8, 8, 8), 53));
    let v6 = SocketAddr::V6(SocketAddrV6::new(
        Ipv6Addr::new(0x2001, 0x4860, 0x4860, 0, 0, 0, 0, 0x8888),
        53,
        7,
        9,
    ));
    let mut buf4 = vec![0xAAu8; 27];
    let mut buf6 = vec![0xAAu8; 27];
    v4.resolve(0, (), &mut buf4);
    v6.resolve(0, (), &mut buf6);
    assert_eq!(buf4[0], 0);
    assert_eq!(buf6[0], 1);
    assert_eq!(&buf4[7..27], &[0u8; 20]);
    let a4 = ArchivedSocketAddr::read(&buf4, 0);
    let a6 = ArchivedSocketAddr::read(&buf6, 0);
    assert!(a4.is_ipv4() && !a4.is_ipv6());
    assert!(a6.is_ipv6() && !a6.is_ipv4());
    assert_eq!(a4.port(), 53);
    assert_eq!(a6.port(), 53);
    let mut backend = NoopBackend;
    let d4 = a4.deserialize(&mut backend).unwrap();
    let d6 = a6.deserialize(&mut backend).unwrap();
    assert!(d4 == v4);
    assert!(d6 == v6);
}

#[test]
fn rearchiving_a_decoded_value_is_byte_identical() {
    let v = SocketAddr::V6(SocketAddrV6::new(
        Ipv6Addr::new(0xfe80, 0, 0, 0, 0x0202, 0xb3ff, 0xfe1e, 0x8329),
        60000,
        0x12345678,
        0x9abcdef0,
    ));
    let mut first = vec![0u8; 27];
    v.resolve(0, (), &mut first);
    let a = ArchivedSocketAddr::read(&first, 0);
    let mut backend = NoopBackend;
    let d = a.deserialize(&mut backend).unwrap();
    let mut second = vec![0u8; 27];
    d.resolve(0, (), &mut second);
    assert_eq!(first, second);
}

#[test]
fn rearchiving_v4_union_is_byte_identical() {
    let v = IpAddr::V4(Ipv4Addr::new(203, 0, 113, 77));
    let mut first = vec![0u8; 17];
    v.resolve(0, (), &mut first);
    let a = ArchivedIpAddr::read(&first, 0);
    let mut backend = NoopBackend;
    let d = a.deserialize(&mut backend).unwrap();
    let mut second = vec![0u8; 17];
    d.resolve(0, (), &mut second);
    assert_eq!(first, second);
}

#[test]
fn disjoint_slots_in_one_buffer_do_not_interfere() {
    let v4 = Ipv4Addr::new(1, 2, 3, 4);
    let v6 = Ipv6Addr::new(5, 6, 7, 8, 9, 10, 11, 12);
    let mut buf = vec![0u8; 20];
    v4.resolve(0, (), &mut buf);
    v6.resolve(4, (), &mut buf);
    let a4 = ArchivedIpv4Addr::read(&buf, 0);
    let a6 = ArchivedIpv6Addr::read(&buf, 4);
    assert_eq!(a4.octets(), [1, 2, 3, 4]);
    assert_eq!(a6.segments(), [5, 6, 7, 8, 9, 10, 11, 12]);
}

#[test]
fn serialize_of_leaf_types_never_fails() {
    let mut backend = NoopBackend;
    assert!(Ipv4Addr::new(1, 1, 1, 1).serialize(&mut backend).is_ok());
    assert!(Ipv6Addr::new(0, 0, 0, 0, 0, 0, 0, 0).serialize(&mut backend).is_ok());
    assert!(IpAddr::V4(Ipv4Addr::new(9, 9, 9, 9)).serialize(&mut backend).is_ok());
    assert!(SocketAddrV4::new(Ipv4Addr::new(1, 2, 3, 4), 80).serialize(&mut backend).is_ok());
    assert!(
        SocketAddrV6::new(Ipv6Addr::new(1, 2, 3, 4, 5, 6, 7, 8), 80, 1, 2)
            .serialize(&mut backend)
            .is_ok()
    );
    assert!(
        SocketAddr::V4(SocketAddrV4::new(Ipv4Addr::new(1, 2, 3, 4), 80))
            .serialize(&mut backend)
            .is_ok()
    );
}

#[test]
fn v4_predicates_match_their_ranges() {
    let broadcast = ArchivedIpv4Addr { octets: [255, 255, 255, 255] };
    assert!(broadcast.is_broadcast());
    assert!(!broadcast.is_loopback());

    let unspecified = ArchivedIpv4Addr { octets: [0, 0, 0, 0] };
    assert!(unspecified.is_unspecified());
    assert!(!unspecified.is_broadcast());

    let loopback = ArchivedIpv4Addr { octets: [127, 250, 1, 3] };
    assert!(loopback.is_loopback());

    let link_local = ArchivedIpv4Addr { octets: [169, 254, 7, 8] };
    assert!(link_local.is_link_local());
    assert!(!ArchivedIpv4Addr { octets: [169, 253, 7, 8] }.is_link_local());

    assert!(ArchivedIpv4Addr { octets: [224, 0, 0, 1] }.is_multicast());
    assert!(ArchivedIpv4Addr { octets: [239, 9, 9, 9] }.is_multicast());
    assert!(!ArchivedIpv4Addr { octets: [240, 0, 0, 1] }.is_multicast());
    assert!(!ArchivedIpv4Addr { octets: [223, 0, 0, 1] }.is_multicast());

    assert!(ArchivedIpv4Addr { octets: [10, 1, 2, 3] }.is_private());
    assert!(ArchivedIpv4Addr { octets: [172, 16, 0, 1] }.is_private());
    assert!(ArchivedIpv4Addr { octets: [172, 31, 255, 1] }.is_private());
    assert!(!ArchivedIpv4Addr { octets: [172, 32, 0, 1] }.is_private());
    assert!(ArchivedIpv4Addr { octets: [192, 168, 9, 9] }.is_private());
    assert!(!ArchivedIpv4Addr { octets: [192, 169, 9, 9] }.is_private());

    assert!(ArchivedIpv4Addr { octets: [192, 0, 2, 200] }.is_documentation());
    assert!(ArchivedIpv4Addr { octets: [198, 51, 100, 1] }.is_documentation());
    assert!(ArchivedIpv4Addr { octets: [203, 0, 113, 1] }.is_documentation());
    assert!(!ArchivedIpv4Addr { octets: [203, 0, 114, 1] }.is_documentation());
}

#[test]
fn v6_predicates_match_their_ranges() {
    let loopback = ArchivedIpv6Addr { segments: [0, 0, 0, 0, 0, 0, 0, 1] };
    assert!(loopback.is_loopback());
    assert!(!loopback.is_unspecified());
    assert!(!loopback.is_multicast());

    let unspecified = ArchivedIpv6Addr { segments: [0, 0, 0, 0, 0, 0, 0, 0] };
    assert!(unspecified.is_unspecified());
    assert!(!unspecified.is_loopback());

    let multicast = ArchivedIpv6Addr { segments: [0xff02, 0, 0, 0, 0, 0, 0, 1] };
    assert!(multicast.is_multicast());
    assert!(!ArchivedIpv6Addr { segments: [0xfe80, 0, 0, 0, 0, 0, 0, 1] }.is_multicast());
}

#[test]
fn union_predicates_delegate_to_the_arm() {
    let v4 = ArchivedIpAddr::V4(ArchivedIpv4Addr { octets: [127, 0, 0, 1] });
    assert!(v4.is_loopback());
    assert!(!v4.is_multicast());
    assert!(!v4.is_unspecified());

    let v6 = ArchivedIpAddr::V6(ArchivedIpv6Addr { segments: [0, 0, 0, 0, 0, 0, 0, 0] });
    assert!(v6.is_unspecified());
    assert!(!v6.is_loopback());

    let m = ArchivedIpAddr::V6(ArchivedIpv6Addr { segments: [0xff00, 0, 0, 0, 0, 0, 0, 9] });
    assert!(m.is_multicast());
}

#[test]
fn family_conversions_match_the_fixed_prefixes() {
    let a = ArchivedIpv4Addr { octets: [192, 0, 2, 255] };
    let compatible = a.to_ipv6_compatible();
    assert_eq!(compatible.segments(), [0, 0, 0, 0, 0, 0, 0xc000, 0x02ff]);
    let mapped = a.to_ipv6_mapped();
    assert_eq!(mapped.segments(), [0, 0, 0, 0, 0, 0xffff, 0xc000, 0x02ff]);

    let back = ArchivedIpv6Addr { segments: [0, 0, 0, 0, 0, 0xffff, 0xc000, 0x02ff] };
    assert_eq!(back.to_ipv4().unwrap().octets(), [192, 0, 2, 255]);
    let compat_back = ArchivedIpv6Addr { segments: [0, 0, 0, 0, 0, 0, 0xc000, 0x02ff] };
    assert_eq!(compat_back.to_ipv4().unwrap().octets(), [192, 0, 2, 255]);
    let neither = ArchivedIpv6Addr { segments: [0, 0, 0, 0, 0, 1, 0xc000, 0x02ff] };
    assert!(neither.to_ipv4().is_none());
    // The loopback address is compatible-shaped, so it converts too.
    let v6_loopback = ArchivedIpv6Addr { segments: [0, 0, 0, 0, 0, 0, 0, 1] };
    assert_eq!(v6_loopback.to_ipv4().unwrap().octets(), [0, 0, 0, 1]);
}

#[test]
fn archived_v6_octets_are_the_payload_bytes() {
    let a = ArchivedIpv6Addr { segments: [0x2001, 0x0db8, 0, 0, 0, 0, 0, 1] };
    assert_eq!(
        a.octets(),
        [0x20, 0x01, 0x0d, 0xb8, 0, 0, 0, 0, 0, 0, 0, 0, 0, 0, 0, 1]
    );
}

#[test]
fn accessors_return_the_stored_fields() {
    let a4 = ArchivedSocketAddrV4 {
        ip: ArchivedIpv4Addr { octets: [1, 2, 3, 4] },
        port: 81,
    };
    assert_eq!(a4.ip().octets(), [1, 2, 3, 4]);
    assert_eq!(a4.port(), 81);
    assert_eq!(a4.as_socket_addr_v4().ip.octets(), [1, 2, 3, 4]);

    let a6 = ArchivedSocketAddrV6 {
        ip: ArchivedIpv6Addr { segments: [1, 2, 3, 4, 5, 6, 7, 8] },
        port: 82,
        flowinfo: 5,
        scope_id: 6,
    };
    assert_eq!(a6.ip().segments(), [1, 2, 3, 4, 5, 6, 7, 8]);
    assert_eq!(a6.port(), 82);
    assert_eq!(a6.flowinfo(), 5);
    assert_eq!(a6.scope_id(), 6);
    let owned = a6.as_socket_addr_v6();
    assert_eq!(owned.port, 82);
    assert_eq!(owned.flowinfo, 5);
    assert_eq!(owned.scope_id, 6);

    let u = ArchivedSocketAddr::V4(a4);
    assert_eq!(u.port(), 81);
    match u.ip() {
        IpAddr::V4(ip) => assert_eq!(ip.octets(), [1, 2, 3, 4]),
        IpAddr::V6(_) => panic!("wrong family"),
    }

    let ua = ArchivedIpAddr::V4(ArchivedIpv4Addr { octets: [9, 8, 7, 6] });
    match ua.as_ipaddr() {
        IpAddr::V4(ip) => assert_eq!(ip.octets(), [9, 8, 7, 6]),
        IpAddr::V6(_) => panic!("wrong family"),
    }
}
