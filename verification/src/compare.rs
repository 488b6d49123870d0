//! The equality and ordering bridge between archived and owned forms.
//!
//! Equality and ordering involving an archived value always go through
//! its canonical decoding, never through raw bytes: byte order and
//! discriminant encoding are storage artifacts invisible to the domain.
//! Every comparison below therefore agrees exactly with the owned types'
//! own equality and order, in both directions, and the order is total:
//! `partial_cmp` never returns `None`. The owned order is the usual one:
//! addresses compare as their big-endian numeric value, endpoints
//! lexicographically by address and then by their remaining fields, and
//! a union value of the first declared family sorts before one of the
//! second.

use core::cmp::Ordering;
use vstd::prelude::*;

use crate::addr::{IpAddr, Ipv4Addr, Ipv6Addr, SocketAddr, SocketAddrV4, SocketAddrV6};
use crate::archived::{
    ArchivedIpAddr, ArchivedIpv4Addr, ArchivedIpv6Addr, ArchivedSocketAddr, ArchivedSocketAddrV4,
    ArchivedSocketAddrV6,
};

verus! {

broadcast use vstd::array::group_array_axioms;

/// The numeric value of a four-octet address, octets big-endian.
pub open spec fn ipv4_key(v: Ipv4Addr) -> int {
    v.octets@[0] * 0x1000000 + v.octets@[1] * 0x10000 + v.octets@[2] * 0x100 + v.octets@[3]
}

/// The numeric value of an eight-segment address, segments big-endian.
pub open spec fn ipv6_key(v: Ipv6Addr) -> int {
    v.segments@[0] * 0x10000000000000000000000000000 + v.segments@[1]
        * 0x1000000000000000000000000 + v.segments@[2] * 0x100000000000000000000
        + v.segments@[3] * 0x10000000000000000 + v.segments@[4] * 0x1000000000000
        + v.segments@[5] * 0x100000000 + v.segments@[6] * 0x10000 + v.segments@[7]
}

/// The order of two integers.
pub open spec fn cmp_int(a: int, b: int) -> Ordering {
    if a < b {
        Ordering::Less
    } else if a == b {
        Ordering::Equal
    } else {
        Ordering::Greater
    }
}

/// Lexicographic combination: the first comparison decides unless it is
/// a tie, in which case the second does.
pub open spec fn lex_cmp(first: Ordering, second: Ordering) -> Ordering {
    if first == Ordering::Equal {
        second
    } else {
        first
    }
}

/// The domain order of four-octet addresses: by numeric value.
pub open spec fn ipv4_cmp(a: Ipv4Addr, b: Ipv4Addr) -> Ordering {
    cmp_int(ipv4_key(a), ipv4_key(b))
}

/// The domain order of eight-segment addresses: by numeric value.
pub open spec fn ipv6_cmp(a: Ipv6Addr, b: Ipv6Addr) -> Ordering {
    cmp_int(ipv6_key(a), ipv6_key(b))
}

/// The domain order of address unions: the first declared family sorts
/// first; within a family, the family's own order.
pub open spec fn ip_addr_cmp(a: IpAddr, b: IpAddr) -> Ordering {
    match (a, b) {
        (IpAddr::V4(x), IpAddr::V4(y)) => ipv4_cmp(x, y),
        (IpAddr::V4(_), IpAddr::V6(_)) => Ordering::Less,
        (IpAddr::V6(_), IpAddr::V4(_)) => Ordering::Greater,
        (IpAddr::V6(x), IpAddr::V6(y)) => ipv6_cmp(x, y),
    }
}

/// The domain order of four-octet endpoints: by address, port breaking
/// ties.
pub open spec fn socket_v4_cmp(a: SocketAddrV4, b: SocketAddrV4) -> Ordering {
    lex_cmp(ipv4_cmp(a.ip, b.ip), cmp_int(a.port as int, b.port as int))
}

/// The domain order of eight-segment endpoints: by address, port, flow
/// information and scope identifier, in that order.
pub open spec fn socket_v6_cmp(a: SocketAddrV6, b: SocketAddrV6) -> Ordering {
    lex_cmp(
        ipv6_cmp(a.ip, b.ip),
        lex_cmp(
            cmp_int(a.port as int, b.port as int),
            lex_cmp(
                cmp_int(a.flowinfo as int, b.flowinfo as int),
                cmp_int(a.scope_id as int, b.scope_id as int),
            ),
        ),
    )
}

/// The domain order of endpoint unions: the first declared family sorts
/// first; within a family, the family's own order.
pub open spec fn socket_addr_cmp(a: SocketAddr, b: SocketAddr) -> Ordering {
    match (a, b) {
        (SocketAddr::V4(x), SocketAddr::V4(y)) => socket_v4_cmp(x, y),
        (SocketAddr::V4(_), SocketAddr::V6(_)) => Ordering::Less,
        (SocketAddr::V6(_), SocketAddr::V4(_)) => Ordering::Greater,
        (SocketAddr::V6(x), SocketAddr::V6(y)) => socket_v6_cmp(x, y),
    }
}

/// Compares two octet blocks for equality.
fn octets_eq(a: &[u8; 4], b: &[u8; 4]) -> (r: bool)
    ensures
        r == (*a == *b),
{
    let r = a[0] == b[0] && a[1] == b[1] && a[2] == b[2] && a[3] == b[3];
    proof {
        if r {
            assert(*a =~= *b);
        }
    }
    r
}

/// Compares two segment blocks for equality.
fn segments_eq(a: &[u16; 8], b: &[u16; 8]) -> (r: bool)
    ensures
        r == (*a == *b),
{
    let r = a[0] == b[0] && a[1] == b[1] && a[2] == b[2] && a[3] == b[3] && a[4] == b[4] && a[5]
        == b[5] && a[6] == b[6] && a[7] == b[7];
    proof {
        if r {
            assert(*a =~= *b);
        }
    }
    r
}

/// The numeric value of a four-octet address, as a machine integer.
fn ipv4_key_val(a: &Ipv4Addr) -> (r: u32)
    ensures
        r as int == ipv4_key(*a),
{
    (a.octets[0] as u32) * 0x1000000 + (a.octets[1] as u32) * 0x10000 + (a.octets[2] as u32)
        * 0x100 + (a.octets[3] as u32)
}

/// The numeric value of an eight-segment address, as a machine integer.
fn ipv6_key_val(a: &Ipv6Addr) -> (r: u128)
    ensures
        r as int == ipv6_key(*a),
{
    (a.segments[0] as u128) * 0x10000000000000000000000000000 + (a.segments[1] as u128)
        * 0x1000000000000000000000000 + (a.segments[2] as u128) * 0x100000000000000000000 + (
    a.segments[3] as u128) * 0x10000000000000000 + (a.segments[4] as u128) * 0x1000000000000 + (
    a.segments[5] as u128) * 0x100000000 + (a.segments[6] as u128) * 0x10000 + (
    a.segments[7] as u128)
}

/// The order of two 16-bit values.
fn cmp_u16(a: u16, b: u16) -> (r: Ordering)
    ensures
        r == cmp_int(a as int, b as int),
{
    if a < b {
        Ordering::Less
    } else if a == b {
        Ordering::Equal
    } else {
        Ordering::Greater
    }
}

/// The order of two 32-bit values.
fn cmp_u32(a: u32, b: u32) -> (r: Ordering)
    ensures
        r == cmp_int(a as int, b as int),
{
    if a < b {
        Ordering::Less
    } else if a == b {
        Ordering::Equal
    } else {
        Ordering::Greater
    }
}

/// The order of two 128-bit values.
fn cmp_u128(a: u128, b: u128) -> (r: Ordering)
    ensures
        r == cmp_int(a as int, b as int),
{
    if a < b {
        Ordering::Less
    } else if a == b {
        Ordering::Equal
    } else {
        Ordering::Greater
    }
}

impl PartialEq for Ipv4Addr {
    fn eq(&self, other: &Ipv4Addr) -> (r: bool) {
        octets_eq(&self.octets, &other.octets)
    }
}

impl vstd::std_specs::cmp::PartialEqSpecImpl for Ipv4Addr {
    open spec fn obeys_eq_spec() -> bool {
        true
    }

    open spec fn eq_spec(&self, other: &Ipv4Addr) -> bool {
        *self == *other
    }
}

impl PartialOrd for Ipv4Addr {
    fn partial_cmp(&self, other: &Ipv4Addr) -> (r: Option<Ordering>) {
        Some(cmp_u32(ipv4_key_val(self), ipv4_key_val(other)))
    }
}

impl vstd::std_specs::cmp::PartialOrdSpecImpl for Ipv4Addr {
    open spec fn obeys_partial_cmp_spec() -> bool {
        true
    }

    open spec fn partial_cmp_spec(&self, other: &Ipv4Addr) -> Option<Ordering> {
        Some(ipv4_cmp(*self, *other))
    }
}

impl PartialEq for ArchivedIpv4Addr {
    fn eq(&self, other: &ArchivedIpv4Addr) -> (r: bool) {
        self.as_ipv4().eq(&other.as_ipv4())
    }
}

impl vstd::std_specs::cmp::PartialEqSpecImpl for ArchivedIpv4Addr {
    open spec fn obeys_eq_spec() -> bool {
        true
    }

    open spec fn eq_spec(&self, other: &ArchivedIpv4Addr) -> bool {
        self@ == other@
    }
}

impl PartialOrd for ArchivedIpv4Addr {
    fn partial_cmp(&self, other: &ArchivedIpv4Addr) -> (r: Option<Ordering>) {
        self.as_ipv4().partial_cmp(&other.as_ipv4())
    }
}

impl vstd::std_specs::cmp::PartialOrdSpecImpl for ArchivedIpv4Addr {
    open spec fn obeys_partial_cmp_spec() -> bool {
        true
    }

    open spec fn partial_cmp_spec(&self, other: &ArchivedIpv4Addr) -> Option<Ordering> {
        Some(ipv4_cmp(self@, other@))
    }
}

impl PartialEq<Ipv4Addr> for ArchivedIpv4Addr {
    fn eq(&self, other: &Ipv4Addr) -> (r: bool) {
        self.as_ipv4().eq(other)
    }
}

impl vstd::std_specs::cmp::PartialEqSpecImpl<Ipv4Addr> for ArchivedIpv4Addr {
    open spec fn obeys_eq_spec() -> bool {
        true
    }

    open spec fn eq_spec(&self, other: &Ipv4Addr) -> bool {
        self@ == *other
    }
}

impl PartialEq<ArchivedIpv4Addr> for Ipv4Addr {
    fn eq(&self, other: &ArchivedIpv4Addr) -> (r: bool) {
        other.eq(self)
    }
}

impl vstd::std_specs::cmp::PartialEqSpecImpl<ArchivedIpv4Addr> for Ipv4Addr {
    open spec fn obeys_eq_spec() -> bool {
        true
    }

    open spec fn eq_spec(&self, other: &ArchivedIpv4Addr) -> bool {
        *self == other@
    }
}

impl PartialOrd<Ipv4Addr> for ArchivedIpv4Addr {
    fn partial_cmp(&self, other: &Ipv4Addr) -> (r: Option<Ordering>) {
        self.as_ipv4().partial_cmp(other)
    }
}

impl vstd::std_specs::cmp::PartialOrdSpecImpl<Ipv4Addr> for ArchivedIpv4Addr {
    open spec fn obeys_partial_cmp_spec() -> bool {
        true
    }

    open spec fn partial_cmp_spec(&self, other: &Ipv4Addr) -> Option<Ordering> {
        Some(ipv4_cmp(self@, *other))
    }
}

impl PartialOrd<ArchivedIpv4Addr> for Ipv4Addr {
    fn partial_cmp(&self, other: &ArchivedIpv4Addr) -> (r: Option<Ordering>) {
        match other.partial_cmp(self) {
            Some(Ordering::Less) => Some(Ordering::Greater),
            Some(Ordering::Equal) => Some(Ordering::Equal),
            Some(Ordering::Greater) => Some(Ordering::Less),
            None => None,
        }
    }
}

impl vstd::std_specs::cmp::PartialOrdSpecImpl<ArchivedIpv4Addr> for Ipv4Addr {
    open spec fn obeys_partial_cmp_spec() -> bool {
        true
    }

    open spec fn partial_cmp_spec(&self, other: &ArchivedIpv4Addr) -> Option<Ordering> {
        Some(ipv4_cmp(*self, other@))
    }
}

impl PartialEq for Ipv6Addr {
    fn eq(&self, other: &Ipv6Addr) -> (r: bool) {
        segments_eq(&self.segments, &other.segments)
    }
}

impl vstd::std_specs::cmp::PartialEqSpecImpl for Ipv6Addr {
    open spec fn obeys_eq_spec() -> bool {
        true
    }

    open spec fn eq_spec(&self, other: &Ipv6Addr) -> bool {
        *self == *other
    }
}

impl PartialOrd for Ipv6Addr {
    fn partial_cmp(&self, other: &Ipv6Addr) -> (r: Option<Ordering>) {
        Some(cmp_u128(ipv6_key_val(self), ipv6_key_val(other)))
    }
}

impl vstd::std_specs::cmp::PartialOrdSpecImpl for Ipv6Addr {
    open spec fn obeys_partial_cmp_spec() -> bool {
        true
    }

    open spec fn partial_cmp_spec(&self, other: &Ipv6Addr) -> Option<Ordering> {
        Some(ipv6_cmp(*self, *other))
    }
}

impl PartialEq for ArchivedIpv6Addr {
    fn eq(&self, other: &ArchivedIpv6Addr) -> (r: bool) {
        self.as_ipv6().eq(&other.as_ipv6())
    }
}

impl vstd::std_specs::cmp::PartialEqSpecImpl for ArchivedIpv6Addr {
    open spec fn obeys_eq_spec() -> bool {
        true
    }

    open spec fn eq_spec(&self, other: &ArchivedIpv6Addr) -> bool {
        self@ == other@
    }
}

impl PartialOrd for ArchivedIpv6Addr {
    fn partial_cmp(&self, other: &ArchivedIpv6Addr) -> (r: Option<Ordering>) {
        self.as_ipv6().partial_cmp(&other.as_ipv6())
    }
}

impl vstd::std_specs::cmp::PartialOrdSpecImpl for ArchivedIpv6Addr {
    open spec fn obeys_partial_cmp_spec() -> bool {
        true
    }

    open spec fn partial_cmp_spec(&self, other: &ArchivedIpv6Addr) -> Option<Ordering> {
        Some(ipv6_cmp(self@, other@))
    }
}

impl PartialEq<Ipv6Addr> for ArchivedIpv6Addr {
    fn eq(&self, other: &Ipv6Addr) -> (r: bool) {
        self.as_ipv6().eq(other)
    }
}

impl vstd::std_specs::cmp::PartialEqSpecImpl<Ipv6Addr> for ArchivedIpv6Addr {
    open spec fn obeys_eq_spec() -> bool {
        true
    }

    open spec fn eq_spec(&self, other: &Ipv6Addr) -> bool {
        self@ == *other
    }
}

impl PartialEq<ArchivedIpv6Addr> for Ipv6Addr {
    fn eq(&self, other: &ArchivedIpv6Addr) -> (r: bool) {
        other.eq(self)
    }
}

impl vstd::std_specs::cmp::PartialEqSpecImpl<ArchivedIpv6Addr> for Ipv6Addr {
    open spec fn obeys_eq_spec() -> bool {
        true
    }

    open spec fn eq_spec(&self, other: &ArchivedIpv6Addr) -> bool {
        *self == other@
    }
}

impl PartialOrd<Ipv6Addr> for ArchivedIpv6Addr {
    fn partial_cmp(&self, other: &Ipv6Addr) -> (r: Option<Ordering>) {
        self.as_ipv6().partial_cmp(other)
    }
}

impl vstd::std_specs::cmp::PartialOrdSpecImpl<Ipv6Addr> for ArchivedIpv6Addr {
    open spec fn obeys_partial_cmp_spec() -> bool {
        true
    }

    open spec fn partial_cmp_spec(&self, other: &Ipv6Addr) -> Option<Ordering> {
        Some(ipv6_cmp(self@, *other))
    }
}

impl PartialOrd<ArchivedIpv6Addr> for Ipv6Addr {
    fn partial_cmp(&self, other: &ArchivedIpv6Addr) -> (r: Option<Ordering>) {
        match other.partial_cmp(self) {
            Some(Ordering::Less) => Some(Ordering::Greater),
            Some(Ordering::Equal) => Some(Ordering::Equal),
            Some(Ordering::Greater) => Some(Ordering::Less),
            None => None,
        }
    }
}

impl vstd::std_specs::cmp::PartialOrdSpecImpl<ArchivedIpv6Addr> for Ipv6Addr {
    open spec fn obeys_partial_cmp_spec() -> bool {
        true
    }

    open spec fn partial_cmp_spec(&self, other: &ArchivedIpv6Addr) -> Option<Ordering> {
        Some(ipv6_cmp(*self, other@))
    }
}

impl PartialEq for IpAddr {
    fn eq(&self, other: &IpAddr) -> (r: bool) {
        match (self, other) {
            (IpAddr::V4(x), IpAddr::V4(y)) => x.eq(y),
            (IpAddr::V6(x), IpAddr::V6(y)) => x.eq(y),
            _ => false,
        }
    }
}

impl vstd::std_specs::cmp::PartialEqSpecImpl for IpAddr {
    open spec fn obeys_eq_spec() -> bool {
        true
    }

    open spec fn eq_spec(&self, other: &IpAddr) -> bool {
        *self == *other
    }
}

impl PartialOrd for IpAddr {
    fn partial_cmp(&self, other: &IpAddr) -> (r: Option<Ordering>) {
        match (self, other) {
            (IpAddr::V4(x), IpAddr::V4(y)) => x.partial_cmp(y),
            (IpAddr::V4(_), IpAddr::V6(_)) => Some(Ordering::Less),
            (IpAddr::V6(_), IpAddr::V4(_)) => Some(Ordering::Greater),
            (IpAddr::V6(x), IpAddr::V6(y)) => x.partial_cmp(y),
        }
    }
}

impl vstd::std_specs::cmp::PartialOrdSpecImpl for IpAddr {
    open spec fn obeys_partial_cmp_spec() -> bool {
        true
    }

    open spec fn partial_cmp_spec(&self, other: &IpAddr) -> Option<Ordering> {
        Some(ip_addr_cmp(*self, *other))
    }
}

impl PartialEq for ArchivedIpAddr {
    fn eq(&self, other: &ArchivedIpAddr) -> (r: bool) {
        self.as_ipaddr().eq(&other.as_ipaddr())
    }
}

impl vstd::std_specs::cmp::PartialEqSpecImpl for ArchivedIpAddr {
    open spec fn obeys_eq_spec() -> bool {
        true
    }

    open spec fn eq_spec(&self, other: &ArchivedIpAddr) -> bool {
        self@ == other@
    }
}

impl PartialOrd for ArchivedIpAddr {
    fn partial_cmp(&self, other: &ArchivedIpAddr) -> (r: Option<Ordering>) {
        self.as_ipaddr().partial_cmp(&other.as_ipaddr())
    }
}

impl vstd::std_specs::cmp::PartialOrdSpecImpl for ArchivedIpAddr {
    open spec fn obeys_partial_cmp_spec() -> bool {
        true
    }

    open spec fn partial_cmp_spec(&self, other: &ArchivedIpAddr) -> Option<Ordering> {
        Some(ip_addr_cmp(self@, other@))
    }
}

impl PartialEq<IpAddr> for ArchivedIpAddr {
    fn eq(&self, other: &IpAddr) -> (r: bool) {
        self.as_ipaddr().eq(other)
    }
}

impl vstd::std_specs::cmp::PartialEqSpecImpl<IpAddr> for ArchivedIpAddr {
    open spec fn obeys_eq_spec() -> bool {
        true
    }

    open spec fn eq_spec(&self, other: &IpAddr) -> bool {
        self@ == *other
    }
}

impl PartialEq<ArchivedIpAddr> for IpAddr {
    fn eq(&self, other: &ArchivedIpAddr) -> (r: bool) {
        other.eq(self)
    }
}

impl vstd::std_specs::cmp::PartialEqSpecImpl<ArchivedIpAddr> for IpAddr {
    open spec fn obeys_eq_spec() -> bool {
        true
    }

    open spec fn eq_spec(&self, other: &ArchivedIpAddr) -> bool {
        *self == other@
    }
}

impl PartialOrd<IpAddr> for ArchivedIpAddr {
    fn partial_cmp(&self, other: &IpAddr) -> (r: Option<Ordering>) {
        self.as_ipaddr().partial_cmp(other)
    }
}

impl vstd::std_specs::cmp::PartialOrdSpecImpl<IpAddr> for ArchivedIpAddr {
    open spec fn obeys_partial_cmp_spec() -> bool {
        true
    }

    open spec fn partial_cmp_spec(&self, other: &IpAddr) -> Option<Ordering> {
        Some(ip_addr_cmp(self@, *other))
    }
}

impl PartialOrd<ArchivedIpAddr> for IpAddr {
    fn partial_cmp(&self, other: &ArchivedIpAddr) -> (r: Option<Ordering>) {
        match other.partial_cmp(self) {
            Some(Ordering::Less) => Some(Ordering::Greater),
            Some(Ordering::Equal) => Some(Ordering::Equal),
            Some(Ordering::Greater) => Some(Ordering::Less),
            None => None,
        }
    }
}

impl vstd::std_specs::cmp::PartialOrdSpecImpl<ArchivedIpAddr> for IpAddr {
    open spec fn obeys_partial_cmp_spec() -> bool {
        true
    }

    open spec fn partial_cmp_spec(&self, other: &ArchivedIpAddr) -> Option<Ordering> {
        Some(ip_addr_cmp(*self, other@))
    }
}

impl PartialEq for SocketAddrV4 {
    fn eq(&self, other: &SocketAddrV4) -> (r: bool) {
        self.ip.eq(&other.ip) && self.port == other.port
    }
}

impl vstd::std_specs::cmp::PartialEqSpecImpl for SocketAddrV4 {
    open spec fn obeys_eq_spec() -> bool {
        true
    }

    open spec fn eq_spec(&self, other: &SocketAddrV4) -> bool {
        *self == *other
    }
}

impl PartialOrd for SocketAddrV4 {
    fn partial_cmp(&self, other: &SocketAddrV4) -> (r: Option<Ordering>) {
        match self.ip.partial_cmp(&other.ip) {
            Some(Ordering::Equal) => Some(cmp_u16(self.port, other.port)),
            o => o,
        }
    }
}

impl vstd::std_specs::cmp::PartialOrdSpecImpl for SocketAddrV4 {
    open spec fn obeys_partial_cmp_spec() -> bool {
        true
    }

    open spec fn partial_cmp_spec(&self, other: &SocketAddrV4) -> Option<Ordering> {
        Some(socket_v4_cmp(*self, *other))
    }
}

impl PartialEq for ArchivedSocketAddrV4 {
    fn eq(&self, other: &ArchivedSocketAddrV4) -> (r: bool) {
        self.as_socket_addr_v4().eq(&other.as_socket_addr_v4())
    }
}

impl vstd::std_specs::cmp::PartialEqSpecImpl for ArchivedSocketAddrV4 {
    open spec fn obeys_eq_spec() -> bool {
        true
    }

    open spec fn eq_spec(&self, other: &ArchivedSocketAddrV4) -> bool {
        self@ == other@
    }
}

impl PartialOrd for ArchivedSocketAddrV4 {
    fn partial_cmp(&self, other: &ArchivedSocketAddrV4) -> (r: Option<Ordering>) {
        self.as_socket_addr_v4().partial_cmp(&other.as_socket_addr_v4())
    }
}

impl vstd::std_specs::cmp::PartialOrdSpecImpl for ArchivedSocketAddrV4 {
    open spec fn obeys_partial_cmp_spec() -> bool {
        true
    }

    open spec fn partial_cmp_spec(&self, other: &ArchivedSocketAddrV4) -> Option<Ordering> {
        Some(socket_v4_cmp(self@, other@))
    }
}

impl PartialEq<SocketAddrV4> for ArchivedSocketAddrV4 {
    fn eq(&self, other: &SocketAddrV4) -> (r: bool) {
        self.as_socket_addr_v4().eq(other)
    }
}

impl vstd::std_specs::cmp::PartialEqSpecImpl<SocketAddrV4> for ArchivedSocketAddrV4 {
    open spec fn obeys_eq_spec() -> bool {
        true
    }

    open spec fn eq_spec(&self, other: &SocketAddrV4) -> bool {
        self@ == *other
    }
}

impl PartialEq<ArchivedSocketAddrV4> for SocketAddrV4 {
    fn eq(&self, other: &ArchivedSocketAddrV4) -> (r: bool) {
        other.eq(self)
    }
}

impl vstd::std_specs::cmp::PartialEqSpecImpl<ArchivedSocketAddrV4> for SocketAddrV4 {
    open spec fn obeys_eq_spec() -> bool {
        true
    }

    open spec fn eq_spec(&self, other: &ArchivedSocketAddrV4) -> bool {
        *self == other@
    }
}

impl PartialOrd<SocketAddrV4> for ArchivedSocketAddrV4 {
    fn partial_cmp(&self, other: &SocketAddrV4) -> (r: Option<Ordering>) {
        self.as_socket_addr_v4().partial_cmp(other)
    }
}

impl vstd::std_specs::cmp::PartialOrdSpecImpl<SocketAddrV4> for ArchivedSocketAddrV4 {
    open spec fn obeys_partial_cmp_spec() -> bool {
        true
    }

    open spec fn partial_cmp_spec(&self, other: &SocketAddrV4) -> Option<Ordering> {
        Some(socket_v4_cmp(self@, *other))
    }
}

impl PartialOrd<ArchivedSocketAddrV4> for SocketAddrV4 {
    fn partial_cmp(&self, other: &ArchivedSocketAddrV4) -> (r: Option<Ordering>) {
        match other.partial_cmp(self) {
            Some(Ordering::Less) => Some(Ordering::Greater),
            Some(Ordering::Equal) => Some(Ordering::Equal),
            Some(Ordering::Greater) => Some(Ordering::Less),
            None => None,
        }
    }
}

impl vstd::std_specs::cmp::PartialOrdSpecImpl<ArchivedSocketAddrV4> for SocketAddrV4 {
    open spec fn obeys_partial_cmp_spec() -> bool {
        true
    }

    open spec fn partial_cmp_spec(&self, other: &ArchivedSocketAddrV4) -> Option<Ordering> {
        Some(socket_v4_cmp(*self, other@))
    }
}

impl PartialEq for SocketAddrV6 {
    fn eq(&self, other: &SocketAddrV6) -> (r: bool) {
        self.ip.eq(&other.ip) && self.port == other.port && self.flowinfo == other.flowinfo
            && self.scope_id == other.scope_id
    }
}

impl vstd::std_specs::cmp::PartialEqSpecImpl for SocketAddrV6 {
    open spec fn obeys_eq_spec() -> bool {
        true
    }

    open spec fn eq_spec(&self, other: &SocketAddrV6) -> bool {
        *self == *other
    }
}

impl PartialOrd for SocketAddrV6 {
    fn partial_cmp(&self, other: &SocketAddrV6) -> (r: Option<Ordering>) {
        match self.ip.partial_cmp(&other.ip) {
            Some(Ordering::Equal) => match cmp_u16(self.port, other.port) {
                Ordering::Equal => match cmp_u32(self.flowinfo, other.flowinfo) {
                    Ordering::Equal => Some(cmp_u32(self.scope_id, other.scope_id)),
                    o => Some(o),
                },
                o => Some(o),
            },
            o => o,
        }
    }
}

impl vstd::std_specs::cmp::PartialOrdSpecImpl for SocketAddrV6 {
    open spec fn obeys_partial_cmp_spec() -> bool {
        true
    }

    open spec fn partial_cmp_spec(&self, other: &SocketAddrV6) -> Option<Ordering> {
        Some(socket_v6_cmp(*self, *other))
    }
}

impl PartialEq for ArchivedSocketAddrV6 {
    fn eq(&self, other: &ArchivedSocketAddrV6) -> (r: bool) {
        self.as_socket_addr_v6().eq(&other.as_socket_addr_v6())
    }
}

impl vstd::std_specs::cmp::PartialEqSpecImpl for ArchivedSocketAddrV6 {
    open spec fn obeys_eq_spec() -> bool {
        true
    }

    open spec fn eq_spec(&self, other: &ArchivedSocketAddrV6) -> bool {
        self@ == other@
    }
}

impl PartialOrd for ArchivedSocketAddrV6 {
    fn partial_cmp(&self, other: &ArchivedSocketAddrV6) -> (r: Option<Ordering>) {
        self.as_socket_addr_v6().partial_cmp(&other.as_socket_addr_v6())
    }
}

impl vstd::std_specs::cmp::PartialOrdSpecImpl for ArchivedSocketAddrV6 {
    open spec fn obeys_partial_cmp_spec() -> bool {
        true
    }

    open spec fn partial_cmp_spec(&self, other: &ArchivedSocketAddrV6) -> Option<Ordering> {
        Some(socket_v6_cmp(self@, other@))
    }
}

impl PartialEq<SocketAddrV6> for ArchivedSocketAddrV6 {
    fn eq(&self, other: &SocketAddrV6) -> (r: bool) {
        self.as_socket_addr_v6().eq(other)
    }
}

impl vstd::std_specs::cmp::PartialEqSpecImpl<SocketAddrV6> for ArchivedSocketAddrV6 {
    open spec fn obeys_eq_spec() -> bool {
        true
    }

    open spec fn eq_spec(&self, other: &SocketAddrV6) -> bool {
        self@ == *other
    }
}

impl PartialEq<ArchivedSocketAddrV6> for SocketAddrV6 {
    fn eq(&self, other: &ArchivedSocketAddrV6) -> (r: bool) {
        other.eq(self)
    }
}

impl vstd::std_specs::cmp::PartialEqSpecImpl<ArchivedSocketAddrV6> for SocketAddrV6 {
    open spec fn obeys_eq_spec() -> bool {
        true
    }

    open spec fn eq_spec(&self, other: &ArchivedSocketAddrV6) -> bool {
        *self == other@
    }
}

impl PartialOrd<SocketAddrV6> for ArchivedSocketAddrV6 {
    fn partial_cmp(&self, other: &SocketAddrV6) -> (r: Option<Ordering>) {
        self.as_socket_addr_v6().partial_cmp(other)
    }
}

impl vstd::std_specs::cmp::PartialOrdSpecImpl<SocketAddrV6> for ArchivedSocketAddrV6 {
    open spec fn obeys_partial_cmp_spec() -> bool {
        true
    }

    open spec fn partial_cmp_spec(&self, other: &SocketAddrV6) -> Option<Ordering> {
        Some(socket_v6_cmp(self@, *other))
    }
}

impl PartialOrd<ArchivedSocketAddrV6> for SocketAddrV6 {
    fn partial_cmp(&self, other: &ArchivedSocketAddrV6) -> (r: Option<Ordering>) {
        match other.partial_cmp(self) {
            Some(Ordering::Less) => Some(Ordering::Greater),
            Some(Ordering::Equal) => Some(Ordering::Equal),
            Some(Ordering::Greater) => Some(Ordering::Less),
            None => None,
        }
    }
}

impl vstd::std_specs::cmp::PartialOrdSpecImpl<ArchivedSocketAddrV6> for SocketAddrV6 {
    open spec fn obeys_partial_cmp_spec() -> bool {
        true
    }

    open spec fn partial_cmp_spec(&self, other: &ArchivedSocketAddrV6) -> Option<Ordering> {
        Some(socket_v6_cmp(*self, other@))
    }
}

impl PartialEq for SocketAddr {
    fn eq(&self, other: &SocketAddr) -> (r: bool) {
        match (self, other) {
            (SocketAddr::V4(x), SocketAddr::V4(y)) => x.eq(y),
            (SocketAddr::V6(x), SocketAddr::V6(y)) => x.eq(y),
            _ => false,
        }
    }
}

impl vstd::std_specs::cmp::PartialEqSpecImpl for SocketAddr {
    open spec fn obeys_eq_spec() -> bool {
        true
    }

    open spec fn eq_spec(&self, other: &SocketAddr) -> bool {
        *self == *other
    }
}

impl PartialOrd for SocketAddr {
    fn partial_cmp(&self, other: &SocketAddr) -> (r: Option<Ordering>) {
        match (self, other) {
            (SocketAddr::V4(x), SocketAddr::V4(y)) => x.partial_cmp(y),
            (SocketAddr::V4(_), SocketAddr::V6(_)) => Some(Ordering::Less),
            (SocketAddr::V6(_), SocketAddr::V4(_)) => Some(Ordering::Greater),
            (SocketAddr::V6(x), SocketAddr::V6(y)) => x.partial_cmp(y),
        }
    }
}

impl vstd::std_specs::cmp::PartialOrdSpecImpl for SocketAddr {
    open spec fn obeys_partial_cmp_spec() -> bool {
        true
    }

    open spec fn partial_cmp_spec(&self, other: &SocketAddr) -> Option<Ordering> {
        Some(socket_addr_cmp(*self, *other))
    }
}

impl PartialEq for ArchivedSocketAddr {
    fn eq(&self, other: &ArchivedSocketAddr) -> (r: bool) {
        self.as_socket_addr().eq(&other.as_socket_addr())
    }
}

impl vstd::std_specs::cmp::PartialEqSpecImpl for ArchivedSocketAddr {
    open spec fn obeys_eq_spec() -> bool {
        true
    }

    open spec fn eq_spec(&self, other: &ArchivedSocketAddr) -> bool {
        self@ == other@
    }
}

impl PartialOrd for ArchivedSocketAddr {
    fn partial_cmp(&self, other: &ArchivedSocketAddr) -> (r: Option<Ordering>) {
        self.as_socket_addr().partial_cmp(&other.as_socket_addr())
    }
}

impl vstd::std_specs::cmp::PartialOrdSpecImpl for ArchivedSocketAddr {
    open spec fn obeys_partial_cmp_spec() -> bool {
        true
    }

    open spec fn partial_cmp_spec(&self, other: &ArchivedSocketAddr) -> Option<Ordering> {
        Some(socket_addr_cmp(self@, other@))
    }
}

impl PartialEq<SocketAddr> for ArchivedSocketAddr {
    fn eq(&self, other: &SocketAddr) -> (r: bool) {
        self.as_socket_addr().eq(other)
    }
}

impl vstd::std_specs::cmp::PartialEqSpecImpl<SocketAddr> for ArchivedSocketAddr {
    open spec fn obeys_eq_spec() -> bool {
        true
    }

    open spec fn eq_spec(&self, other: &SocketAddr) -> bool {
        self@ == *other
    }
}

impl PartialEq<ArchivedSocketAddr> for SocketAddr {
    fn eq(&self, other: &ArchivedSocketAddr) -> (r: bool) {
        other.eq(self)
    }
}

impl vstd::std_specs::cmp::PartialEqSpecImpl<ArchivedSocketAddr> for SocketAddr {
    open spec fn obeys_eq_spec() -> bool {
        true
    }

    open spec fn eq_spec(&self, other: &ArchivedSocketAddr) -> bool {
        *self == other@
    }
}

impl PartialOrd<SocketAddr> for ArchivedSocketAddr {
    fn partial_cmp(&self, other: &SocketAddr) -> (r: Option<Ordering>) {
        self.as_socket_addr().partial_cmp(other)
    }
}

impl vstd::std_specs::cmp::PartialOrdSpecImpl<SocketAddr> for ArchivedSocketAddr {
    open spec fn obeys_partial_cmp_spec() -> bool {
        true
    }

    open spec fn partial_cmp_spec(&self, other: &SocketAddr) -> Option<Ordering> {
        Some(socket_addr_cmp(self@, *other))
    }
}

impl PartialOrd<ArchivedSocketAddr> for SocketAddr {
    fn partial_cmp(&self, other: &ArchivedSocketAddr) -> (r: Option<Ordering>) {
        match other.partial_cmp(self) {
            Some(Ordering::Less) => Some(Ordering::Greater),
            Some(Ordering::Equal) => Some(Ordering::Equal),
            Some(Ordering::Greater) => Some(Ordering::Less),
            None => None,
        }
    }
}

impl vstd::std_specs::cmp::PartialOrdSpecImpl<ArchivedSocketAddr> for SocketAddr {
    open spec fn obeys_partial_cmp_spec() -> bool {
        true
    }

    open spec fn partial_cmp_spec(&self, other: &ArchivedSocketAddr) -> Option<Ordering> {
        Some(socket_addr_cmp(*self, other@))
    }
}

} // verus!
