use std::cmp::Ordering;

use rkyv::addr::{IpAddr, Ipv4Addr, Ipv6Addr, SocketAddr, SocketAddrV4, SocketAddrV6};
use rkyv::archived::{
    ArchivedIpAddr, ArchivedIpv4Addr, ArchivedIpv6Addr, ArchivedSocketAddr, ArchivedSocketAddrV4,
    ArchivedSocketAddrV6,
};

#[test]
fn archived_equals_owned_in_both_directions() {
    let v = Ipv4Addr::new(10, 0, 0, 1);
    let a = ArchivedIpv4Addr { octets: [10, 0, 0, 1] };
    assert!(a == v);
    assert!(v == a);
    let w = Ipv4Addr::new(10, 0, 0, 2);
    assert!(a != w);
    assert!(w != a);
}

#[test]
fn archived_v6_equals_owned_in_both_directions() {
    let v = Ipv6Addr::new(1, 2, 3, 4, 5, 6, 7, 8);
    let a = ArchivedIpv6Addr { segments: [1, 2, 3, 4, 5, 6, 7, 8] };
    assert!(a == v);
    assert!(v == a);
    let w = Ipv6Addr::new(1, 2, 3, 4, 5, 6, 7, 9);
    assert!(a != w);
    assert!(w != a);
}

#[test]
fn archived_union_equality_respects_the_arm() {
    let v4 = IpAddr::V4(Ipv4Addr::new(1, 1, 1, 1));
    let a4 = ArchivedIpAddr::V4(ArchivedIpv4Addr { octets: [1, 1, 1, 1] });
    let a6 = ArchivedIpAddr::V6(ArchivedIpv6Addr { segments: [0, 0, 0, 0, 0, 0, 0, 1] });
    assert!(a4 == v4);
    assert!(v4 == a4);
    assert!(a6 != v4);
    assert!(v4 != a6);
}

#[test]
fn archived_endpoint_equality_covers_every_field() {
    let v = SocketAddrV6::new(Ipv6Addr::new(1, 2, 3, 4, 5, 6, 7, 8), 80, 9, 10);
    let a = ArchivedSocketAddrV6 {
        ip: ArchivedIpv6Addr { segments: [1, 2, 3, 4, 5, 6, 7, 8] },
        port: 80,
        flowinfo: 9,
        scope_id: 10,
    };
    assert!(a == v);
    assert!(v == a);
    let different_flow = SocketAddrV6::new(Ipv6Addr::new(1, 2, 3, 4, 5, 6, 7, 8), 80, 11, 10);
    assert!(a != different_flow);
    assert!(different_flow != a);
}

#[test]
fn owned_addresses_order_numerically() {
    let small = Ipv4Addr::new(1, 2, 3, 4);
    let large = Ipv4Addr::new(1, 2, 3, 5);
    assert_eq!(small.partial_cmp(&large), Some(Ordering::Less));
    assert_eq!(large.partial_cmp(&small), Some(Ordering::Greater));
    assert_eq!(small.partial_cmp(&small), Some(Ordering::Equal));
    // The first octet outweighs everything after it.
    assert!(Ipv4Addr::new(2, 0, 0, 0) > Ipv4Addr::new(1, 255, 255, 255));
    assert!(Ipv6Addr::new(0, 0, 0, 0, 0, 0, 1, 0) > Ipv6Addr::new(0, 0, 0, 0, 0, 0, 0, 0xffff));
}

#[test]
fn archived_order_agrees_with_owned_order() {
    let pairs = [
        ([1u8, 2, 3, 4], [1u8, 2, 3, 5]),
        ([9, 9, 9, 9], [9, 9, 9, 9]),
        ([200, 0, 0, 0], [100, 255, 255, 255]),
    ];
    for (x, y) in pairs {
        let vx = Ipv4Addr::new(x[0], x[1], x[2], x[3]);
        let vy = Ipv4Addr::new(y[0], y[1], y[2], y[3]);
        let ax = ArchivedIpv4Addr { octets: x };
        let ay = ArchivedIpv4Addr { octets: y };
        assert_eq!(ax.partial_cmp(&ay), vx.partial_cmp(&vy));
        assert_eq!(ax.partial_cmp(&vy), vx.partial_cmp(&vy));
        assert_eq!(vx.partial_cmp(&ay), vx.partial_cmp(&vy));
    }
}

#[test]
fn archived_v6_order_agrees_with_owned_order() {
    let vx = Ipv6Addr::new(0xfe80, 0, 0, 0, 0, 0, 0, 1);
    let vy = Ipv6Addr::new(0xfe80, 0, 0, 0, 0, 0, 0, 2);
    let ax = ArchivedIpv6Addr { segments: [0xfe80, 0, 0, 0, 0, 0, 0, 1] };
    let ay = ArchivedIpv6Addr { segments: [0xfe80, 0, 0, 0, 0, 0, 0, 2] };
    assert_eq!(ax.partial_cmp(&ay), vx.partial_cmp(&vy));
    assert_eq!(ay.partial_cmp(&ax), vy.partial_cmp(&vx));
    assert_eq!(vx.partial_cmp(&ay), Some(Ordering::Less));
    assert_eq!(ay.partial_cmp(&vx), Some(Ordering::Greater));
}

#[test]
fn union_order_puts_the_first_family_first() {
    let v4 = IpAddr::V4(Ipv4Addr::new(255, 255, 255, 255));
    let v6 = IpAddr::V6(Ipv6Addr::new(0, 0, 0, 0, 0, 0, 0, 0));
    assert_eq!(v4.partial_cmp(&v6), Some(Ordering::Less));
    assert_eq!(v6.partial_cmp(&v4), Some(Ordering::Greater));
    let a4 = ArchivedIpAddr::V4(ArchivedIpv4Addr { octets: [255, 255, 255, 255] });
    let a6 = ArchivedIpAddr::V6(ArchivedIpv6Addr { segments: [0, 0, 0, 0, 0, 0, 0, 0] });
    assert_eq!(a4.partial_cmp(&a6), Some(Ordering::Less));
    assert_eq!(a4.partial_cmp(&v6), Some(Ordering::Less));
    assert_eq!(v6.partial_cmp(&a4), Some(Ordering::Greater));
}

#[test]
fn endpoint_order_breaks_ties_field_by_field() {
    let base = SocketAddrV4::new(Ipv4Addr::new(1, 2, 3, 4), 80);
    let higher_port = SocketAddrV4::new(Ipv4Addr::new(1, 2, 3, 4), 81);
    let higher_ip = SocketAddrV4::new(Ipv4Addr::new(1, 2, 3, 5), 1);
    assert_eq!(base.partial_cmp(&higher_port), Some(Ordering::Less));
    assert_eq!(base.partial_cmp(&higher_ip), Some(Ordering::Less));
    assert_eq!(higher_ip.partial_cmp(&higher_port), Some(Ordering::Greater));

    let a = ArchivedSocketAddrV4 { ip: ArchivedIpv4Addr { octets: [1, 2, 3, 4] }, port: 80 };
    assert_eq!(a.partial_cmp(&higher_port), Some(Ordering::Less));
    assert_eq!(higher_port.partial_cmp(&a), Some(Ordering::Greater));
    assert_eq!(a.partial_cmp(&base), Some(Ordering::Equal));
    assert!(a == base);

    let v6a = SocketAddrV6::new(Ipv6Addr::new(1, 2, 3, 4, 5, 6, 7, 8), 80, 1, 9);
    let v6b = SocketAddrV6::new(Ipv6Addr::new(1, 2, 3, 4, 5, 6, 7, 8), 80, 2, 0);
    assert_eq!(v6a.partial_cmp(&v6b), Some(Ordering::Less));
    let a6 = ArchivedSocketAddrV6 {
        ip: ArchivedIpv6Addr { segments: [1, 2, 3, 4, 5, 6, 7, 8] },
        port: 80,
        flowinfo: 1,
        scope_id: 9,
    };
    assert_eq!(a6.partial_cmp(&v6b), Some(Ordering::Less));
    assert_eq!(v6b.partial_cmp(&a6), Some(Ordering::Greater));
}

#[test]
fn endpoint_union_order_agrees_across_representations() {
    let sv4 = SocketAddr::V4(SocketAddrV4::new(Ipv4Addr::new(9, 9, 9, 9), 999));
    let sv6 = SocketAddr::V6(SocketAddrV6::new(Ipv6Addr::new(0, 0, 0, 0, 0, 0, 0, 1), 1, 0, 0));
    assert_eq!(sv4.partial_cmp(&sv6), Some(Ordering::Less));
    let a4 = ArchivedSocketAddr::V4(ArchivedSocketAddrV4 {
        ip: ArchivedIpv4Addr { octets: [9, 9, 9, 9] },
        port: 999,
    });
    let a6 = ArchivedSocketAddr::V6(ArchivedSocketAddrV6 {
        ip: ArchivedIpv6Addr { segments: [0, 0, 0, 0, 0, 0, 0, 1] },
        port: 1,
        flowinfo: 0,
        scope_id: 0,
    });
    assert_eq!(a4.partial_cmp(&a6), Some(Ordering::Less));
    assert_eq!(a4.partial_cmp(&sv4), Some(Ordering::Equal));
    assert!(a4 == sv4);
    assert!(sv6 == a6);
    assert_eq!(sv6.partial_cmp(&a4), Some(Ordering::Greater));
}
