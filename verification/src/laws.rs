//! The guarantees that tie the protocol's pieces together.
//!
//! Each lemma here states one law over the layout and comparison
//! specifications: reading archived bytes back decodes to the value that
//! was archived; a union's discriminant byte is the fixed constant of its
//! arm; re-archiving a decoded value reproduces the original bytes; and
//! equality and ordering of archived values agree, in both directions,
//! with the owned domain order.

use core::cmp::Ordering;
use vstd::prelude::*;
use vstd::std_specs::cmp::{PartialEqSpec, PartialOrdSpec};

use crate::addr::{IpAddr, Ipv4Addr, Ipv6Addr, SocketAddr, SocketAddrV4, SocketAddrV6};
use crate::compare::{
    ip_addr_cmp, ipv4_cmp, ipv4_key, ipv6_cmp, ipv6_key, socket_addr_cmp, socket_v4_cmp,
    socket_v6_cmp,
};
use crate::archived::{
    ArchivedIpAddr, ArchivedIpv4Addr, ArchivedIpv6Addr, ArchivedSocketAddr, ArchivedSocketAddrV4,
    ArchivedSocketAddrV6,
};
use crate::layout::{
    ip_addr_enc, ipv4_enc, ipv6_enc, lemma_segments_round_trip, lemma_u16_le_round_trip,
    lemma_u32_le_round_trip, segments_dec, socket_addr_enc, socket_v4_enc, socket_v6_enc,
    u16_from_le, u16_le_bytes, u32_from_le, u32_le_bytes, IPV4_SIZE, IPV6_SIZE, IP_ADDR_SIZE,
    PAYLOAD_OFFSET, SOCKET_ADDR_SIZE, SOCKET_V6_SIZE, TAG_V4, TAG_V6,
    V4_PORT_OFFSET, V6_FLOWINFO_OFFSET, V6_PORT_OFFSET, V6_SCOPE_ID_OFFSET,
};

verus! {

broadcast use vstd::array::group_array_axioms;

/// Round trip: an archived address read back from the archived bytes of
/// `v` decodes to `v` itself.
pub proof fn lemma_ipv4_round_trip(v: Ipv4Addr, a: ArchivedIpv4Addr)
    requires
        a.octets@ == ipv4_enc(v),
    ensures
        a@ == v,
{
    assert(a.octets =~= v.octets);
}

/// Round trip: an archived address read back from the archived bytes of
/// `v` decodes to `v` itself, every segment preserved through the
/// big-endian encoding.
pub proof fn lemma_ipv6_round_trip(v: Ipv6Addr, a: ArchivedIpv6Addr)
    requires
        a.segments@ == segments_dec(ipv6_enc(v)),
    ensures
        a@ == v,
{
    lemma_segments_round_trip(v.segments@);
    assert(a.segments =~= v.segments);
}

/// Round trip for the address union: an archived union read back from
/// the archived bytes of `v` has the arm that was archived and an
/// identical payload.
pub proof fn lemma_ip_addr_round_trip(v: IpAddr, a: ArchivedIpAddr)
    requires
        ip_addr_enc(v)[0] == TAG_V4 ==> (a matches ArchivedIpAddr::V4(p) && p.octets@
            == ip_addr_enc(v).subrange(
            PAYLOAD_OFFSET as int,
            PAYLOAD_OFFSET as int + IPV4_SIZE as int,
        )),
        ip_addr_enc(v)[0] == TAG_V6 ==> (a matches ArchivedIpAddr::V6(p) && p.segments@
            == segments_dec(
            ip_addr_enc(v).subrange(PAYLOAD_OFFSET as int, PAYLOAD_OFFSET as int + IPV6_SIZE as int),
        )),
    ensures
        a@ == v,
{
    match v {
        IpAddr::V4(x) => {
            assert(ip_addr_enc(v)[0] == TAG_V4);
            assert(ip_addr_enc(v).subrange(1, 5) =~= ipv4_enc(x));
            match a {
                ArchivedIpAddr::V4(p) => {
                    lemma_ipv4_round_trip(x, p);
                },
                ArchivedIpAddr::V6(_) => {
                    assert(false);
                },
            }
        },
        IpAddr::V6(x) => {
            assert(ip_addr_enc(v)[0] == TAG_V6);
            assert(ip_addr_enc(v).subrange(1, 17) =~= ipv6_enc(x));
            match a {
                ArchivedIpAddr::V6(p) => {
                    lemma_ipv6_round_trip(x, p);
                },
                ArchivedIpAddr::V4(_) => {
                    assert(false);
                },
            }
        },
    }
}

/// Round trip: an archived endpoint read back from the archived bytes of
/// `v` decodes to `v` itself, address and port preserved.
pub proof fn lemma_socket_v4_round_trip(v: SocketAddrV4, a: ArchivedSocketAddrV4)
    requires
        a.ip.octets@ == socket_v4_enc(v).subrange(0, IPV4_SIZE as int),
        a.port == u16_from_le(
            socket_v4_enc(v)[V4_PORT_OFFSET as int],
            socket_v4_enc(v)[V4_PORT_OFFSET as int + 1],
        ),
    ensures
        a@ == v,
{
    assert(socket_v4_enc(v).subrange(0, IPV4_SIZE as int) =~= ipv4_enc(v.ip));
    lemma_ipv4_round_trip(v.ip, a.ip);
    assert(socket_v4_enc(v)[V4_PORT_OFFSET as int] == u16_le_bytes(v.port)[0]);
    assert(socket_v4_enc(v)[V4_PORT_OFFSET as int + 1] == u16_le_bytes(v.port)[1]);
    lemma_u16_le_round_trip(v.port);
}

/// Round trip: an archived endpoint read back from the archived bytes of
/// `v` decodes to `v` itself, all four fields preserved.
pub proof fn lemma_socket_v6_round_trip(v: SocketAddrV6, a: ArchivedSocketAddrV6)
    requires
        a.ip.segments@ == segments_dec(socket_v6_enc(v).subrange(0, IPV6_SIZE as int)),
        a.port == u16_from_le(
            socket_v6_enc(v)[V6_PORT_OFFSET as int],
            socket_v6_enc(v)[V6_PORT_OFFSET as int + 1],
        ),
        a.flowinfo == u32_from_le(
            socket_v6_enc(v)[V6_FLOWINFO_OFFSET as int],
            socket_v6_enc(v)[V6_FLOWINFO_OFFSET as int + 1],
            socket_v6_enc(v)[V6_FLOWINFO_OFFSET as int + 2],
            socket_v6_enc(v)[V6_FLOWINFO_OFFSET as int + 3],
        ),
        a.scope_id == u32_from_le(
            socket_v6_enc(v)[V6_SCOPE_ID_OFFSET as int],
            socket_v6_enc(v)[V6_SCOPE_ID_OFFSET as int + 1],
            socket_v6_enc(v)[V6_SCOPE_ID_OFFSET as int + 2],
            socket_v6_enc(v)[V6_SCOPE_ID_OFFSET as int + 3],
        ),
    ensures
        a@ == v,
{
    assert(socket_v6_enc(v).subrange(0, IPV6_SIZE as int) =~= ipv6_enc(v.ip));
    lemma_ipv6_round_trip(v.ip, a.ip);
    assert(socket_v6_enc(v)[V6_PORT_OFFSET as int] == u16_le_bytes(v.port)[0]);
    assert(socket_v6_enc(v)[V6_PORT_OFFSET as int + 1] == u16_le_bytes(v.port)[1]);
    lemma_u16_le_round_trip(v.port);
    assert forall|i: int| 0 <= i < 4 implies socket_v6_enc(v)[V6_FLOWINFO_OFFSET as int + i]
        == u32_le_bytes(v.flowinfo)[i] by {}
    lemma_u32_le_round_trip(v.flowinfo);
    assert forall|i: int| 0 <= i < 4 implies socket_v6_enc(v)[V6_SCOPE_ID_OFFSET as int + i]
        == u32_le_bytes(v.scope_id)[i] by {}
    lemma_u32_le_round_trip(v.scope_id);
}

/// Round trip for the endpoint union: an archived union read back from
/// the archived bytes of `v` has the arm that was archived and an
/// identical payload.
pub proof fn lemma_socket_addr_round_trip(v: SocketAddr, a: ArchivedSocketAddr)
    requires
        socket_addr_enc(v)[0] == TAG_V4 ==> (a matches ArchivedSocketAddr::V4(p) && p.ip.octets@
            == socket_addr_enc(v).subrange(
            PAYLOAD_OFFSET as int,
            PAYLOAD_OFFSET as int + IPV4_SIZE as int,
        ) && p.port == u16_from_le(
            socket_addr_enc(v)[PAYLOAD_OFFSET as int + V4_PORT_OFFSET as int],
            socket_addr_enc(v)[PAYLOAD_OFFSET as int + V4_PORT_OFFSET as int + 1],
        )),
        socket_addr_enc(v)[0] == TAG_V6 ==> (a matches ArchivedSocketAddr::V6(p) && p.ip.segments@
            == segments_dec(
            socket_addr_enc(v).subrange(
                PAYLOAD_OFFSET as int,
                PAYLOAD_OFFSET as int + IPV6_SIZE as int,
            ),
        ) && p.port == u16_from_le(
            socket_addr_enc(v)[PAYLOAD_OFFSET as int + V6_PORT_OFFSET as int],
            socket_addr_enc(v)[PAYLOAD_OFFSET as int + V6_PORT_OFFSET as int + 1],
        ) && p.flowinfo == u32_from_le(
            socket_addr_enc(v)[PAYLOAD_OFFSET as int + V6_FLOWINFO_OFFSET as int],
            socket_addr_enc(v)[PAYLOAD_OFFSET as int + V6_FLOWINFO_OFFSET as int + 1],
            socket_addr_enc(v)[PAYLOAD_OFFSET as int + V6_FLOWINFO_OFFSET as int + 2],
            socket_addr_enc(v)[PAYLOAD_OFFSET as int + V6_FLOWINFO_OFFSET as int + 3],
        ) && p.scope_id == u32_from_le(
            socket_addr_enc(v)[PAYLOAD_OFFSET as int + V6_SCOPE_ID_OFFSET as int],
            socket_addr_enc(v)[PAYLOAD_OFFSET as int + V6_SCOPE_ID_OFFSET as int + 1],
            socket_addr_enc(v)[PAYLOAD_OFFSET as int + V6_SCOPE_ID_OFFSET as int + 2],
            socket_addr_enc(v)[PAYLOAD_OFFSET as int + V6_SCOPE_ID_OFFSET as int + 3],
        )),
    ensures
        a@ == v,
{
    match v {
        SocketAddr::V4(x) => {
            assert(socket_addr_enc(v)[0] == TAG_V4);
            match a {
                ArchivedSocketAddr::V4(p) => {
                    assert(socket_addr_enc(v).subrange(1, 5) =~= socket_v4_enc(x).subrange(
                        0,
                        IPV4_SIZE as int,
                    ));
                    assert(socket_addr_enc(v)[PAYLOAD_OFFSET as int + V4_PORT_OFFSET as int]
                        == socket_v4_enc(x)[V4_PORT_OFFSET as int]);
                    assert(socket_addr_enc(v)[PAYLOAD_OFFSET as int + V4_PORT_OFFSET as int + 1]
                        == socket_v4_enc(x)[V4_PORT_OFFSET as int + 1]);
                    lemma_socket_v4_round_trip(x, p);
                },
                ArchivedSocketAddr::V6(_) => {
                    assert(false);
                },
            }
        },
        SocketAddr::V6(x) => {
            assert(socket_addr_enc(v)[0] == TAG_V6);
            match a {
                ArchivedSocketAddr::V6(p) => {
                    assert(socket_addr_enc(v).subrange(1, 17) =~= socket_v6_enc(x).subrange(
                        0,
                        IPV6_SIZE as int,
                    ));
                    assert forall|i: int| 0 <= i < SOCKET_V6_SIZE implies socket_addr_enc(
                        v,
                    )[PAYLOAD_OFFSET as int + i] == socket_v6_enc(x)[i] by {}
                    lemma_socket_v6_round_trip(x, p);
                },
                ArchivedSocketAddr::V4(_) => {
                    assert(false);
                },
            }
        },
    }
}

/// The archived bytes of an address union start with the fixed
/// discriminant of the value's arm, assigned in declaration order, and
/// fill the whole slot.
pub proof fn lemma_ip_addr_tag(v: IpAddr)
    ensures
        ip_addr_enc(v).len() == IP_ADDR_SIZE,
        v is V4 ==> ip_addr_enc(v)[0] == TAG_V4,
        v is V6 ==> ip_addr_enc(v)[0] == TAG_V6,
{
}

/// The archived bytes of an endpoint union start with the fixed
/// discriminant of the value's arm, assigned in declaration order, and
/// fill the whole slot.
pub proof fn lemma_socket_addr_tag(v: SocketAddr)
    ensures
        socket_addr_enc(v).len() == SOCKET_ADDR_SIZE,
        v is V4 ==> socket_addr_enc(v)[0] == TAG_V4,
        v is V6 ==> socket_addr_enc(v)[0] == TAG_V6,
{
}

/// Determinism: archiving the value decoded from an archive reproduces
/// the original archived bytes, byte for byte.
pub proof fn lemma_ipv4_rearchive(v: Ipv4Addr, a: ArchivedIpv4Addr)
    requires
        a.octets@ == ipv4_enc(v),
    ensures
        ipv4_enc(a@) == ipv4_enc(v),
{
    lemma_ipv4_round_trip(v, a);
}

/// Determinism: archiving the value decoded from an archive reproduces
/// the original archived bytes, byte for byte.
pub proof fn lemma_ipv6_rearchive(v: Ipv6Addr, a: ArchivedIpv6Addr)
    requires
        a.segments@ == segments_dec(ipv6_enc(v)),
    ensures
        ipv6_enc(a@) == ipv6_enc(v),
{
    lemma_ipv6_round_trip(v, a);
}

/// Equality bridge: an archived address equals an owned address, in
/// either direction, exactly when its canonical decoding equals it.
pub proof fn lemma_eq_bridge_ipv4(a: ArchivedIpv4Addr, v: Ipv4Addr)
    ensures
        a.eq_spec(&v) == (a@ == v),
        v.eq_spec(&a) == (a@ == v),
{
}

/// Equality bridge: an archived address equals an owned address, in
/// either direction, exactly when its canonical decoding equals it.
pub proof fn lemma_eq_bridge_ipv6(a: ArchivedIpv6Addr, v: Ipv6Addr)
    ensures
        a.eq_spec(&v) == (a@ == v),
        v.eq_spec(&a) == (a@ == v),
{
}

/// Equality bridge: an archived address equals an owned address, in
/// either direction, exactly when its canonical decoding equals it.
pub proof fn lemma_eq_bridge_ip_addr(a: ArchivedIpAddr, v: IpAddr)
    ensures
        a.eq_spec(&v) == (a@ == v),
        v.eq_spec(&a) == (a@ == v),
{
}

/// Equality bridge: an archived endpoint equals an owned endpoint, in
/// either direction, exactly when its canonical decoding equals it.
pub proof fn lemma_eq_bridge_socket_v4(a: ArchivedSocketAddrV4, v: SocketAddrV4)
    ensures
        a.eq_spec(&v) == (a@ == v),
        v.eq_spec(&a) == (a@ == v),
{
}

/// Equality bridge: an archived endpoint equals an owned endpoint, in
/// either direction, exactly when its canonical decoding equals it.
pub proof fn lemma_eq_bridge_socket_v6(a: ArchivedSocketAddrV6, v: SocketAddrV6)
    ensures
        a.eq_spec(&v) == (a@ == v),
        v.eq_spec(&a) == (a@ == v),
{
}

/// Equality bridge: an archived endpoint equals an owned endpoint, in
/// either direction, exactly when its canonical decoding equals it.
pub proof fn lemma_eq_bridge_socket_addr(a: ArchivedSocketAddr, v: SocketAddr)
    ensures
        a.eq_spec(&v) == (a@ == v),
        v.eq_spec(&a) == (a@ == v),
{
}

/// Ordering bridge: two archived addresses compare exactly as their
/// canonical decodings do, and the order is total.
pub proof fn lemma_ord_bridge_ipv4(a: ArchivedIpv4Addr, b: ArchivedIpv4Addr)
    ensures
        a.partial_cmp_spec(&b) == a@.partial_cmp_spec(&b@),
        a.partial_cmp_spec(&b) is Some,
{
}

/// Ordering bridge: two archived addresses compare exactly as their
/// canonical decodings do, and the order is total.
pub proof fn lemma_ord_bridge_ipv6(a: ArchivedIpv6Addr, b: ArchivedIpv6Addr)
    ensures
        a.partial_cmp_spec(&b) == a@.partial_cmp_spec(&b@),
        a.partial_cmp_spec(&b) is Some,
{
}

/// Ordering bridge: two archived addresses compare exactly as their
/// canonical decodings do, and the order is total.
pub proof fn lemma_ord_bridge_ip_addr(a: ArchivedIpAddr, b: ArchivedIpAddr)
    ensures
        a.partial_cmp_spec(&b) == a@.partial_cmp_spec(&b@),
        a.partial_cmp_spec(&b) is Some,
{
}

/// Ordering bridge: two archived endpoints compare exactly as their
/// canonical decodings do, and the order is total.
pub proof fn lemma_ord_bridge_socket_v4(a: ArchivedSocketAddrV4, b: ArchivedSocketAddrV4)
    ensures
        a.partial_cmp_spec(&b) == a@.partial_cmp_spec(&b@),
        a.partial_cmp_spec(&b) is Some,
{
}

/// Ordering bridge: two archived endpoints compare exactly as their
/// canonical decodings do, and the order is total.
pub proof fn lemma_ord_bridge_socket_v6(a: ArchivedSocketAddrV6, b: ArchivedSocketAddrV6)
    ensures
        a.partial_cmp_spec(&b) == a@.partial_cmp_spec(&b@),
        a.partial_cmp_spec(&b) is Some,
{
}

/// Ordering bridge: two archived endpoints compare exactly as their
/// canonical decodings do, and the order is total.
pub proof fn lemma_ord_bridge_socket_addr(a: ArchivedSocketAddr, b: ArchivedSocketAddr)
    ensures
        a.partial_cmp_spec(&b) == a@.partial_cmp_spec(&b@),
        a.partial_cmp_spec(&b) is Some,
{
}


/// Determinism: archiving the value decoded from an archive reproduces
/// the original archived bytes, byte for byte.
pub proof fn lemma_ip_addr_rearchive(v: IpAddr, a: ArchivedIpAddr)
    requires
        ip_addr_enc(v)[0] == TAG_V4 ==> (a matches ArchivedIpAddr::V4(p) && p.octets@
            == ip_addr_enc(v).subrange(
            PAYLOAD_OFFSET as int,
            PAYLOAD_OFFSET as int + IPV4_SIZE as int,
        )),
        ip_addr_enc(v)[0] == TAG_V6 ==> (a matches ArchivedIpAddr::V6(p) && p.segments@
            == segments_dec(
            ip_addr_enc(v).subrange(PAYLOAD_OFFSET as int, PAYLOAD_OFFSET as int + IPV6_SIZE as int),
        )),
    ensures
        ip_addr_enc(a@) == ip_addr_enc(v),
{
    lemma_ip_addr_round_trip(v, a);
}

/// Determinism: archiving the value decoded from an archive reproduces
/// the original archived bytes, byte for byte.
pub proof fn lemma_socket_v4_rearchive(v: SocketAddrV4, a: ArchivedSocketAddrV4)
    requires
        a.ip.octets@ == socket_v4_enc(v).subrange(0, IPV4_SIZE as int),
        a.port == u16_from_le(
            socket_v4_enc(v)[V4_PORT_OFFSET as int],
            socket_v4_enc(v)[V4_PORT_OFFSET as int + 1],
        ),
    ensures
        socket_v4_enc(a@) == socket_v4_enc(v),
{
    lemma_socket_v4_round_trip(v, a);
}

/// Determinism: archiving the value decoded from an archive reproduces
/// the original archived bytes, byte for byte.
pub proof fn lemma_socket_v6_rearchive(v: SocketAddrV6, a: ArchivedSocketAddrV6)
    requires
        a.ip.segments@ == segments_dec(socket_v6_enc(v).subrange(0, IPV6_SIZE as int)),
        a.port == u16_from_le(
            socket_v6_enc(v)[V6_PORT_OFFSET as int],
            socket_v6_enc(v)[V6_PORT_OFFSET as int + 1],
        ),
        a.flowinfo == u32_from_le(
            socket_v6_enc(v)[V6_FLOWINFO_OFFSET as int],
            socket_v6_enc(v)[V6_FLOWINFO_OFFSET as int + 1],
            socket_v6_enc(v)[V6_FLOWINFO_OFFSET as int + 2],
            socket_v6_enc(v)[V6_FLOWINFO_OFFSET as int + 3],
        ),
        a.scope_id == u32_from_le(
            socket_v6_enc(v)[V6_SCOPE_ID_OFFSET as int],
            socket_v6_enc(v)[V6_SCOPE_ID_OFFSET as int + 1],
            socket_v6_enc(v)[V6_SCOPE_ID_OFFSET as int + 2],
            socket_v6_enc(v)[V6_SCOPE_ID_OFFSET as int + 3],
        ),
    ensures
        socket_v6_enc(a@) == socket_v6_enc(v),
{
    lemma_socket_v6_round_trip(v, a);
}

/// Determinism: archiving the value decoded from an archive reproduces
/// the original archived bytes, byte for byte.
pub proof fn lemma_socket_addr_rearchive(v: SocketAddr, a: ArchivedSocketAddr)
    requires
        socket_addr_enc(v)[0] == TAG_V4 ==> (a matches ArchivedSocketAddr::V4(p) && p.ip.octets@
            == socket_addr_enc(v).subrange(
            PAYLOAD_OFFSET as int,
            PAYLOAD_OFFSET as int + IPV4_SIZE as int,
        ) && p.port == u16_from_le(
            socket_addr_enc(v)[PAYLOAD_OFFSET as int + V4_PORT_OFFSET as int],
            socket_addr_enc(v)[PAYLOAD_OFFSET as int + V4_PORT_OFFSET as int + 1],
        )),
        socket_addr_enc(v)[0] == TAG_V6 ==> (a matches ArchivedSocketAddr::V6(p) && p.ip.segments@
            == segments_dec(
            socket_addr_enc(v).subrange(
                PAYLOAD_OFFSET as int,
                PAYLOAD_OFFSET as int + IPV6_SIZE as int,
            ),
        ) && p.port == u16_from_le(
            socket_addr_enc(v)[PAYLOAD_OFFSET as int + V6_PORT_OFFSET as int],
            socket_addr_enc(v)[PAYLOAD_OFFSET as int + V6_PORT_OFFSET as int + 1],
        ) && p.flowinfo == u32_from_le(
            socket_addr_enc(v)[PAYLOAD_OFFSET as int + V6_FLOWINFO_OFFSET as int],
            socket_addr_enc(v)[PAYLOAD_OFFSET as int + V6_FLOWINFO_OFFSET as int + 1],
            socket_addr_enc(v)[PAYLOAD_OFFSET as int + V6_FLOWINFO_OFFSET as int + 2],
            socket_addr_enc(v)[PAYLOAD_OFFSET as int + V6_FLOWINFO_OFFSET as int + 3],
        ) && p.scope_id == u32_from_le(
            socket_addr_enc(v)[PAYLOAD_OFFSET as int + V6_SCOPE_ID_OFFSET as int],
            socket_addr_enc(v)[PAYLOAD_OFFSET as int + V6_SCOPE_ID_OFFSET as int + 1],
            socket_addr_enc(v)[PAYLOAD_OFFSET as int + V6_SCOPE_ID_OFFSET as int + 2],
            socket_addr_enc(v)[PAYLOAD_OFFSET as int + V6_SCOPE_ID_OFFSET as int + 3],
        )),
    ensures
        socket_addr_enc(a@) == socket_addr_enc(v),
{
    lemma_socket_addr_round_trip(v, a);
}

/// The order reflects equality: two addresses compare as `Equal` exactly
/// when they are the same address.
pub proof fn lemma_ipv4_order_reflects_equality(a: Ipv4Addr, b: Ipv4Addr)
    ensures
        (ipv4_cmp(a, b) == Ordering::Equal) == (a == b),
{
    if ipv4_key(a) == ipv4_key(b) {
        assert(a.octets@[0] == b.octets@[0]);
        assert(a.octets@[1] == b.octets@[1]);
        assert(a.octets@[2] == b.octets@[2]);
        assert(a.octets@[3] == b.octets@[3]);
        assert(a.octets =~= b.octets);
    }
}

/// One digit and its remainder are determined: if two digit-remainder
/// splits against the same weight agree, they agree digit by digit.
proof fn lemma_peel_digit(xd: int, xr: int, yd: int, yr: int, c: int)
    requires
        c > 0,
        0 <= xr < c,
        0 <= yr < c,
        xd * c + xr == yd * c + yr,
    ensures
        xd == yd,
        xr == yr,
{
    assert(xd == yd && xr == yr) by (nonlinear_arith)
        requires
            c > 0,
            0 <= xr < c,
            0 <= yr < c,
            xd * c + xr == yd * c + yr,
    ;
}

/// The order reflects equality: two addresses compare as `Equal` exactly
/// when they are the same address.
pub proof fn lemma_ipv6_order_reflects_equality(a: Ipv6Addr, b: Ipv6Addr)
    ensures
        (ipv6_cmp(a, b) == Ordering::Equal) == (a == b),
{
    let sa = a.segments@;
    let sb = b.segments@;
    if ipv6_key(a) == ipv6_key(b) {
        let ta1 = sa[1] * 0x1000000000000000000000000 + sa[2] * 0x100000000000000000000 + sa[3]
            * 0x10000000000000000 + sa[4] * 0x1000000000000 + sa[5] * 0x100000000 + sa[6] * 0x10000
            + sa[7];
        let tb1 = sb[1] * 0x1000000000000000000000000 + sb[2] * 0x100000000000000000000 + sb[3]
            * 0x10000000000000000 + sb[4] * 0x1000000000000 + sb[5] * 0x100000000 + sb[6] * 0x10000
            + sb[7];
        lemma_peel_digit(sa[0] as int, ta1, sb[0] as int, tb1, 0x10000000000000000000000000000);
        let ta2 = sa[2] * 0x100000000000000000000 + sa[3] * 0x10000000000000000 + sa[4]
            * 0x1000000000000 + sa[5] * 0x100000000 + sa[6] * 0x10000 + sa[7];
        let tb2 = sb[2] * 0x100000000000000000000 + sb[3] * 0x10000000000000000 + sb[4]
            * 0x1000000000000 + sb[5] * 0x100000000 + sb[6] * 0x10000 + sb[7];
        lemma_peel_digit(sa[1] as int, ta2, sb[1] as int, tb2, 0x1000000000000000000000000);
        let ta3 = sa[3] * 0x10000000000000000 + sa[4] * 0x1000000000000 + sa[5] * 0x100000000
            + sa[6] * 0x10000 + sa[7];
        let tb3 = sb[3] * 0x10000000000000000 + sb[4] * 0x1000000000000 + sb[5] * 0x100000000
            + sb[6] * 0x10000 + sb[7];
        lemma_peel_digit(sa[2] as int, ta3, sb[2] as int, tb3, 0x100000000000000000000);
        let ta4 = sa[4] * 0x1000000000000 + sa[5] * 0x100000000 + sa[6] * 0x10000 + sa[7];
        let tb4 = sb[4] * 0x1000000000000 + sb[5] * 0x100000000 + sb[6] * 0x10000 + sb[7];
        lemma_peel_digit(sa[3] as int, ta4, sb[3] as int, tb4, 0x10000000000000000);
        let ta5 = sa[5] * 0x100000000 + sa[6] * 0x10000 + sa[7];
        let tb5 = sb[5] * 0x100000000 + sb[6] * 0x10000 + sb[7];
        lemma_peel_digit(sa[4] as int, ta5, sb[4] as int, tb5, 0x1000000000000);
        let ta6 = sa[6] * 0x10000 + sa[7];
        let tb6 = sb[6] * 0x10000 + sb[7];
        lemma_peel_digit(sa[5] as int, ta6, sb[5] as int, tb6, 0x100000000);
        lemma_peel_digit(sa[6] as int, sa[7] as int, sb[6] as int, sb[7] as int, 0x10000);
        assert(a.segments =~= b.segments);
    }
}

/// The order reflects equality: two address unions compare as `Equal`
/// exactly when they are the same value.
pub proof fn lemma_ip_addr_order_reflects_equality(a: IpAddr, b: IpAddr)
    ensures
        (ip_addr_cmp(a, b) == Ordering::Equal) == (a == b),
{
    match (a, b) {
        (IpAddr::V4(x), IpAddr::V4(y)) => lemma_ipv4_order_reflects_equality(x, y),
        (IpAddr::V6(x), IpAddr::V6(y)) => lemma_ipv6_order_reflects_equality(x, y),
        _ => {},
    }
}

/// The order reflects equality: two endpoints compare as `Equal` exactly
/// when they are the same endpoint.
pub proof fn lemma_socket_v4_order_reflects_equality(a: SocketAddrV4, b: SocketAddrV4)
    ensures
        (socket_v4_cmp(a, b) == Ordering::Equal) == (a == b),
{
    lemma_ipv4_order_reflects_equality(a.ip, b.ip);
}

/// The order reflects equality: two endpoints compare as `Equal` exactly
/// when they are the same endpoint.
pub proof fn lemma_socket_v6_order_reflects_equality(a: SocketAddrV6, b: SocketAddrV6)
    ensures
        (socket_v6_cmp(a, b) == Ordering::Equal) == (a == b),
{
    lemma_ipv6_order_reflects_equality(a.ip, b.ip);
}

/// The order reflects equality: two endpoint unions compare as `Equal`
/// exactly when they are the same value.
pub proof fn lemma_socket_addr_order_reflects_equality(a: SocketAddr, b: SocketAddr)
    ensures
        (socket_addr_cmp(a, b) == Ordering::Equal) == (a == b),
{
    match (a, b) {
        (SocketAddr::V4(x), SocketAddr::V4(y)) => lemma_socket_v4_order_reflects_equality(x, y),
        (SocketAddr::V6(x), SocketAddr::V6(y)) => lemma_socket_v6_order_reflects_equality(x, y),
        _ => {},
    }
}

} // verus!
