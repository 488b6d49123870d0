//! The declared wire layout of every archived type.
//!
//! Each archived representation has one fixed, byte-addressable layout,
//! declared here as specification functions from owned values to byte
//! sequences. Segment values of the eight-segment address family are
//! stored big-endian (network order); port, flow and scope fields are
//! stored little-endian; single-byte fields are stored verbatim. A tagged
//! union stores a one-byte discriminant, assigned in declaration order,
//! followed by the selected variant's payload; the slot of a union is
//! sized for its widest variant and the bytes past a narrower payload are
//! written as zero, so that archiving is deterministic byte for byte.

use vstd::prelude::*;

use crate::addr::{IpAddr, Ipv4Addr, Ipv6Addr, SocketAddr, SocketAddrV4, SocketAddrV6};

verus! {

/// Size in bytes of an archived four-octet address.
pub const IPV4_SIZE: usize = 4;

/// Size in bytes of an archived eight-segment address.
pub const IPV6_SIZE: usize = 16;

/// Size in bytes of an archived address union: one discriminant byte
/// followed by the widest payload.
pub const IP_ADDR_SIZE: usize = 17;

/// Size in bytes of an archived four-octet endpoint: address then port.
pub const SOCKET_V4_SIZE: usize = 6;

/// Size in bytes of an archived eight-segment endpoint: address, port,
/// flow information, scope identifier.
pub const SOCKET_V6_SIZE: usize = 26;

/// Size in bytes of an archived endpoint union: one discriminant byte
/// followed by the widest payload.
pub const SOCKET_ADDR_SIZE: usize = 27;

/// Discriminant of the first declared variant of each address union.
pub const TAG_V4: u8 = 0;

/// Discriminant of the second declared variant of each address union.
pub const TAG_V6: u8 = 1;

/// Offset of the payload within a union slot, just past the discriminant.
pub const PAYLOAD_OFFSET: usize = 1;

/// Offset of the port field within an archived four-octet endpoint.
pub const V4_PORT_OFFSET: usize = 4;

/// Offset of the port field within an archived eight-segment endpoint.
pub const V6_PORT_OFFSET: usize = 16;

/// Offset of the flow information field within an archived eight-segment
/// endpoint.
pub const V6_FLOWINFO_OFFSET: usize = 18;

/// Offset of the scope identifier field within an archived eight-segment
/// endpoint.
pub const V6_SCOPE_ID_OFFSET: usize = 22;

/// The high byte of a 16-bit value, as stored first under big-endian order.
pub open spec fn be_hi(x: u16) -> u8 {
    (x / 0x100) as u8
}

/// The low byte of a 16-bit value, as stored second under big-endian order.
pub open spec fn be_lo(x: u16) -> u8 {
    (x % 0x100) as u8
}

/// The 16-bit value stored big-endian as the bytes `hi`, `lo`.
pub open spec fn u16_from_be(hi: u8, lo: u8) -> u16 {
    (hi * 0x100 + lo) as u16
}

/// The two bytes of a 16-bit value under little-endian order.
pub open spec fn u16_le_bytes(x: u16) -> Seq<u8> {
    seq![(x % 0x100) as u8, (x / 0x100) as u8]
}

/// The 16-bit value stored little-endian as the bytes `b0`, `b1`.
pub open spec fn u16_from_le(b0: u8, b1: u8) -> u16 {
    (b0 + b1 * 0x100) as u16
}

/// The four bytes of a 32-bit value under little-endian order.
pub open spec fn u32_le_bytes(x: u32) -> Seq<u8> {
    seq![
        (x % 0x100) as u8,
        ((x / 0x100) % 0x100) as u8,
        ((x / 0x10000) % 0x100) as u8,
        ((x / 0x1000000) % 0x100) as u8,
    ]
}

/// The 32-bit value stored little-endian as the bytes `b0` through `b3`.
pub open spec fn u32_from_le(b0: u8, b1: u8, b2: u8, b3: u8) -> u32 {
    (b0 + b1 * 0x100 + b2 * 0x10000 + b3 * 0x1000000) as u32
}

/// A run of `n` zero bytes, the deterministic fill past a narrow payload.
pub open spec fn zero_bytes(n: nat) -> Seq<u8> {
    Seq::new(n, |i: int| 0u8)
}

/// The big-endian encoding of a sequence of eight 16-bit segments.
pub open spec fn segments_enc(segs: Seq<u16>) -> Seq<u8> {
    Seq::new(
        16,
        |i: int|
            if i % 2 == 0 {
                be_hi(segs[i / 2])
            } else {
                be_lo(segs[i / 2])
            },
    )
}

/// The eight segments stored big-endian in a sixteen-byte sequence.
pub open spec fn segments_dec(s: Seq<u8>) -> Seq<u16> {
    Seq::new(8, |i: int| u16_from_be(s[2 * i], s[2 * i + 1]))
}

/// The archived bytes of a four-octet address: the octets verbatim.
pub open spec fn ipv4_enc(v: Ipv4Addr) -> Seq<u8> {
    v.octets@
}

/// The archived bytes of an eight-segment address: the segments in
/// big-endian order.
pub open spec fn ipv6_enc(v: Ipv6Addr) -> Seq<u8> {
    segments_enc(v.segments@)
}

/// The archived bytes of an address union: discriminant, payload, zero
/// fill up to the slot size.
pub open spec fn ip_addr_enc(v: IpAddr) -> Seq<u8> {
    match v {
        IpAddr::V4(a) => seq![TAG_V4] + ipv4_enc(a) + zero_bytes(12),
        IpAddr::V6(a) => seq![TAG_V6] + ipv6_enc(a),
    }
}

/// The archived bytes of a four-octet endpoint: address then port.
pub open spec fn socket_v4_enc(v: SocketAddrV4) -> Seq<u8> {
    ipv4_enc(v.ip) + u16_le_bytes(v.port)
}

/// The archived bytes of an eight-segment endpoint: address, port, flow
/// information, scope identifier.
pub open spec fn socket_v6_enc(v: SocketAddrV6) -> Seq<u8> {
    ipv6_enc(v.ip) + u16_le_bytes(v.port) + u32_le_bytes(v.flowinfo) + u32_le_bytes(v.scope_id)
}

/// The archived bytes of an endpoint union: discriminant, payload, zero
/// fill up to the slot size.
pub open spec fn socket_addr_enc(v: SocketAddr) -> Seq<u8> {
    match v {
        SocketAddr::V4(a) => seq![TAG_V4] + socket_v4_enc(a) + zero_bytes(20),
        SocketAddr::V6(a) => seq![TAG_V6] + socket_v6_enc(a),
    }
}

/// A 16-bit value survives the big-endian split into two bytes.
pub proof fn lemma_u16_be_round_trip(x: u16)
    ensures
        u16_from_be(be_hi(x), be_lo(x)) == x,
{
    vstd::arithmetic::div_mod::lemma_fundamental_div_mod(x as int, 0x100);
}

/// Two bytes survive being read as a big-endian 16-bit value and split
/// again: the stored form is canonical.
pub proof fn lemma_u16_be_canonical(hi: u8, lo: u8)
    ensures
        be_hi(u16_from_be(hi, lo)) == hi,
        be_lo(u16_from_be(hi, lo)) == lo,
{
    let x = u16_from_be(hi, lo);
    vstd::arithmetic::div_mod::lemma_fundamental_div_mod_converse(
        x as int,
        0x100,
        hi as int,
        lo as int,
    );
}

/// A 16-bit value survives the little-endian split into two bytes.
pub proof fn lemma_u16_le_round_trip(x: u16)
    ensures
        u16_from_le(u16_le_bytes(x)[0], u16_le_bytes(x)[1]) == x,
{
    vstd::arithmetic::div_mod::lemma_fundamental_div_mod(x as int, 0x100);
}

/// A 32-bit value survives the little-endian split into four bytes.
pub proof fn lemma_u32_le_round_trip(x: u32)
    ensures
        u32_from_le(
            u32_le_bytes(x)[0],
            u32_le_bytes(x)[1],
            u32_le_bytes(x)[2],
            u32_le_bytes(x)[3],
        ) == x,
{
    let q1 = x as int / 0x100;
    let q2 = x as int / 0x10000;
    let q3 = x as int / 0x1000000;
    vstd::arithmetic::div_mod::lemma_fundamental_div_mod(x as int, 0x100);
    vstd::arithmetic::div_mod::lemma_fundamental_div_mod(q1, 0x100);
    // q1 == 0x100 * q2 + q1 % 0x100, so x / 0x10000 == q2.
    vstd::arithmetic::div_mod::lemma_fundamental_div_mod_converse(
        x as int,
        0x10000,
        q1 / 0x100,
        0x100 * (q1 % 0x100) + x as int % 0x100,
    );
    vstd::arithmetic::div_mod::lemma_fundamental_div_mod(q2, 0x100);
    vstd::arithmetic::div_mod::lemma_fundamental_div_mod_converse(
        x as int,
        0x1000000,
        q2 / 0x100,
        0x10000 * (q2 % 0x100) + 0x100 * (q1 % 0x100) + x as int % 0x100,
    );
    vstd::arithmetic::div_mod::lemma_fundamental_div_mod(q3, 0x100);
}

/// Round trip of the segment block: decoding the big-endian encoding of
/// eight segments gives the segments back.
pub proof fn lemma_segments_round_trip(segs: Seq<u16>)
    requires
        segs.len() == 8,
    ensures
        segments_dec(segments_enc(segs)) == segs,
{
    let dec = segments_dec(segments_enc(segs));
    assert forall|i: int| 0 <= i < 8 implies dec[i] == segs[i] by {
        assert(segments_enc(segs)[2 * i] == be_hi(segs[i]));
        assert(segments_enc(segs)[2 * i + 1] == be_lo(segs[i]));
        lemma_u16_be_round_trip(segs[i]);
    }
    assert(dec =~= segs);
}

/// Idempotence of the segment block: re-encoding the decoded segments of
/// any sixteen-byte block reproduces the block byte for byte.
pub proof fn lemma_segments_canonical(s: Seq<u8>)
    requires
        s.len() == 16,
    ensures
        segments_enc(segments_dec(s)) == s,
{
    let enc = segments_enc(segments_dec(s));
    assert forall|i: int| 0 <= i < 16 implies enc[i] == s[i] by {
        let j = i / 2;
        assert(segments_dec(s)[j] == u16_from_be(s[2 * j], s[2 * j + 1]));
        lemma_u16_be_canonical(s[2 * j], s[2 * j + 1]);
        if i % 2 == 0 {
            assert(2 * j == i);
        } else {
            assert(2 * j + 1 == i);
        }
    }
    assert(enc =~= s);
}

} // verus!
