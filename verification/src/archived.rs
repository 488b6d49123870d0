//! Archived representations: the fixed-layout, directly readable forms.
//!
//! Each archived type mirrors one owned type. Its view (`@`) is the owned
//! value it decodes to, and every reading method is specified against that
//! canonical decoding. The archived forms of the two tagged unions keep
//! one variant payload next to a fixed discriminant; the discriminants
//! are assigned in declaration order and are a wire-format commitment.

use vstd::prelude::*;

use crate::addr::{IpAddr, Ipv4Addr, Ipv6Addr, SocketAddr, SocketAddrV4, SocketAddrV6};
use crate::layout::{be_hi, be_lo, segments_enc, u16_from_be};

verus! {

/// An archived four-octet address.
#[derive(Clone, Copy, Debug, Hash)]
pub struct ArchivedIpv4Addr {
    /// The four octets, stored verbatim.
    pub octets: [u8; 4],
}

/// An archived eight-segment address. The archived bytes store each
/// segment big-endian; in decoded form the segments are plain values.
#[derive(Clone, Copy, Debug, Hash)]
pub struct ArchivedIpv6Addr {
    /// The eight 16-bit segments, most significant first.
    pub segments: [u16; 8],
}

/// An archived address of either family.
#[derive(Clone, Copy, Debug, Hash)]
pub enum ArchivedIpAddr {
    /// A four-octet address.
    V4(ArchivedIpv4Addr),
    /// An eight-segment address.
    V6(ArchivedIpv6Addr),
}

/// An archived endpoint over a four-octet address.
#[derive(Clone, Copy, Debug, Hash)]
pub struct ArchivedSocketAddrV4 {
    /// The address.
    pub ip: ArchivedIpv4Addr,
    /// The port number.
    pub port: u16,
}

/// An archived endpoint over an eight-segment address.
#[derive(Clone, Copy, Debug, Hash)]
pub struct ArchivedSocketAddrV6 {
    /// The address.
    pub ip: ArchivedIpv6Addr,
    /// The port number.
    pub port: u16,
    /// The flow information field.
    pub flowinfo: u32,
    /// The scope identifier field.
    pub scope_id: u32,
}

/// An archived endpoint of either family.
#[derive(Clone, Copy, Debug, Hash)]
pub enum ArchivedSocketAddr {
    /// An endpoint over a four-octet address.
    V4(ArchivedSocketAddrV4),
    /// An endpoint over an eight-segment address.
    V6(ArchivedSocketAddrV6),
}

impl View for ArchivedIpv4Addr {
    type V = Ipv4Addr;

    /// The canonical decoding: the owned address with the same octets.
    open spec fn view(&self) -> Ipv4Addr {
        Ipv4Addr { octets: self.octets }
    }
}

impl View for ArchivedIpv6Addr {
    type V = Ipv6Addr;

    /// The canonical decoding: the owned address with the same segments.
    open spec fn view(&self) -> Ipv6Addr {
        Ipv6Addr { segments: self.segments }
    }
}

impl View for ArchivedIpAddr {
    type V = IpAddr;

    /// The canonical decoding: the owned address of the same variant.
    open spec fn view(&self) -> IpAddr {
        match *self {
            ArchivedIpAddr::V4(a) => IpAddr::V4(a@),
            ArchivedIpAddr::V6(a) => IpAddr::V6(a@),
        }
    }
}

impl View for ArchivedSocketAddrV4 {
    type V = SocketAddrV4;

    /// The canonical decoding: the owned endpoint with the same fields.
    open spec fn view(&self) -> SocketAddrV4 {
        SocketAddrV4 { ip: self.ip@, port: self.port }
    }
}

impl View for ArchivedSocketAddrV6 {
    type V = SocketAddrV6;

    /// The canonical decoding: the owned endpoint with the same fields.
    open spec fn view(&self) -> SocketAddrV6 {
        SocketAddrV6 { ip: self.ip@, port: self.port, flowinfo: self.flowinfo, scope_id: self.scope_id }
    }
}

impl View for ArchivedSocketAddr {
    type V = SocketAddr;

    /// The canonical decoding: the owned endpoint of the same variant.
    open spec fn view(&self) -> SocketAddr {
        match *self {
            ArchivedSocketAddr::V4(a) => SocketAddr::V4(a@),
            ArchivedSocketAddr::V6(a) => SocketAddr::V6(a@),
        }
    }
}

impl ArchivedIpv4Addr {
    /// Returns the owned address with the same value.
    pub fn as_ipv4(&self) -> (r: Ipv4Addr)
        ensures
            r == self@,
    {
        Ipv4Addr { octets: self.octets }
    }

    /// Returns `true` if this is a broadcast address (255.255.255.255).
    pub fn is_broadcast(&self) -> (r: bool)
        ensures
            r == self@.is_broadcast(),
    {
        self.octets[0] == 255 && self.octets[1] == 255 && self.octets[2] == 255 && self.octets[3]
            == 255
    }

    /// Returns `true` if this address is in a range designated for
    /// documentation.
    pub fn is_documentation(&self) -> (r: bool)
        ensures
            r == self@.is_documentation(),
    {
        (self.octets[0] == 192 && self.octets[1] == 0 && self.octets[2] == 2) || (self.octets[0]
            == 198 && self.octets[1] == 51 && self.octets[2] == 100) || (self.octets[0] == 203
            && self.octets[1] == 0 && self.octets[2] == 113)
    }

    /// Returns `true` if the address is link-local (169.254.0.0/16).
    pub fn is_link_local(&self) -> (r: bool)
        ensures
            r == self@.is_link_local(),
    {
        self.octets[0] == 169 && self.octets[1] == 254
    }

    /// Returns `true` if this is a loopback address (127.0.0.0/8).
    pub fn is_loopback(&self) -> (r: bool)
        ensures
            r == self@.is_loopback(),
    {
        self.octets[0] == 127
    }

    /// Returns `true` if this is a multicast address (224.0.0.0/4).
    pub fn is_multicast(&self) -> (r: bool)
        ensures
            r == self@.is_multicast(),
    {
        self.octets[0] >= 224 && self.octets[0] <= 239
    }

    /// Returns `true` if this is a private address.
    pub fn is_private(&self) -> (r: bool)
        ensures
            r == self@.is_private(),
    {
        self.octets[0] == 10 || (self.octets[0] == 172 && self.octets[1] >= 16 && self.octets[1]
            <= 31) || (self.octets[0] == 192 && self.octets[1] == 168)
    }

    /// Returns `true` for the special 'unspecified' address (0.0.0.0).
    pub fn is_unspecified(&self) -> (r: bool)
        ensures
            r == self@.is_unspecified(),
    {
        self.octets[0] == 0 && self.octets[1] == 0 && self.octets[2] == 0 && self.octets[3] == 0
    }

    /// Returns the four eight-bit integers that make up this address.
    pub fn octets(&self) -> (r: [u8; 4])
        ensures
            r == self.octets,
    {
        self.octets
    }

    /// Converts this address to its compatible form in the eight-segment
    /// family: six zero segments, then the octets packed big-endian into
    /// the last two segments.
    pub fn to_ipv6_compatible(&self) -> (r: Ipv6Addr)
        ensures
            r.segments@ == seq![
                0u16,
                0u16,
                0u16,
                0u16,
                0u16,
                0u16,
                u16_from_be(self.octets@[0], self.octets@[1]),
                u16_from_be(self.octets@[2], self.octets@[3]),
            ],
    {
        let g: u16 = (self.octets[0] as u16) * 0x100 + (self.octets[1] as u16);
        let h: u16 = (self.octets[2] as u16) * 0x100 + (self.octets[3] as u16);
        Ipv6Addr { segments: [0, 0, 0, 0, 0, 0, g, h] }
    }

    /// Converts this address to its mapped form in the eight-segment
    /// family: five zero segments, one all-ones segment, then the octets
    /// packed big-endian into the last two segments.
    pub fn to_ipv6_mapped(&self) -> (r: Ipv6Addr)
        ensures
            r.segments@ == seq![
                0u16,
                0u16,
                0u16,
                0u16,
                0u16,
                0xffffu16,
                u16_from_be(self.octets@[0], self.octets@[1]),
                u16_from_be(self.octets@[2], self.octets@[3]),
            ],
    {
        let g: u16 = (self.octets[0] as u16) * 0x100 + (self.octets[1] as u16);
        let h: u16 = (self.octets[2] as u16) * 0x100 + (self.octets[3] as u16);
        Ipv6Addr { segments: [0, 0, 0, 0, 0, 0xffff, g, h] }
    }
}

impl ArchivedIpv6Addr {
    /// Returns the owned address with the same value.
    pub fn as_ipv6(&self) -> (r: Ipv6Addr)
        ensures
            r == self@,
    {
        Ipv6Addr { segments: self.segments }
    }

    /// Returns `true` if this is the loopback address (all segments zero
    /// but the last, which is 1).
    pub fn is_loopback(&self) -> (r: bool)
        ensures
            r == self@.is_loopback(),
    {
        self.segments[0] == 0 && self.segments[1] == 0 && self.segments[2] == 0 && self.segments[3]
            == 0 && self.segments[4] == 0 && self.segments[5] == 0 && self.segments[6] == 0
            && self.segments[7] == 1
    }

    /// Returns `true` if this is a multicast address (first byte 0xff).
    pub fn is_multicast(&self) -> (r: bool)
        ensures
            r == self@.is_multicast(),
    {
        self.segments[0] / 0x100 == 0xff
    }

    /// Returns `true` for the special 'unspecified' address (all segments
    /// zero).
    pub fn is_unspecified(&self) -> (r: bool)
        ensures
            r == self@.is_unspecified(),
    {
        self.segments[0] == 0 && self.segments[1] == 0 && self.segments[2] == 0 && self.segments[3]
            == 0 && self.segments[4] == 0 && self.segments[5] == 0 && self.segments[6] == 0
            && self.segments[7] == 0
    }

    /// Returns the sixteen eight-bit integers the address consists of,
    /// segments in big-endian order: exactly the archived payload bytes.
    pub fn octets(&self) -> (r: [u8; 16])
        ensures
            r@ == segments_enc(self.segments@),
    {
        let r: [u8; 16] = [
            (self.segments[0] / 0x100) as u8,
            (self.segments[0] % 0x100) as u8,
            (self.segments[1] / 0x100) as u8,
            (self.segments[1] % 0x100) as u8,
            (self.segments[2] / 0x100) as u8,
            (self.segments[2] % 0x100) as u8,
            (self.segments[3] / 0x100) as u8,
            (self.segments[3] % 0x100) as u8,
            (self.segments[4] / 0x100) as u8,
            (self.segments[4] % 0x100) as u8,
            (self.segments[5] / 0x100) as u8,
            (self.segments[5] % 0x100) as u8,
            (self.segments[6] / 0x100) as u8,
            (self.segments[6] % 0x100) as u8,
            (self.segments[7] / 0x100) as u8,
            (self.segments[7] % 0x100) as u8,
        ];
        proof {
            assert(r@ =~= segments_enc(self.segments@));
        }
        r
    }

    /// Returns the eight 16-bit segments that make up this address.
    pub fn segments(&self) -> (r: [u16; 8])
        ensures
            r == self.segments,
    {
        self.segments
    }

    /// Converts this address to a four-octet address. Returns `None` if
    /// this address is neither compatible (first six segments zero) nor
    /// mapped (first five segments zero, sixth all ones).
    pub fn to_ipv4(&self) -> (r: Option<Ipv4Addr>)
        ensures
            r is Some <==> (self.segments@[0] == 0 && self.segments@[1] == 0 && self.segments@[2]
                == 0 && self.segments@[3] == 0 && self.segments@[4] == 0 && (self.segments@[5] == 0
                || self.segments@[5] == 0xffff)),
            r is Some ==> r->0.octets@ == seq![
                be_hi(self.segments@[6]),
                be_lo(self.segments@[6]),
                be_hi(self.segments@[7]),
                be_lo(self.segments@[7]),
            ],
    {
        if self.segments[0] == 0 && self.segments[1] == 0 && self.segments[2] == 0
            && self.segments[3] == 0 && self.segments[4] == 0 && (self.segments[5] == 0
            || self.segments[5] == 0xffff) {
            Some(
                Ipv4Addr {
                    octets: [
                        (self.segments[6] / 0x100) as u8,
                        (self.segments[6] % 0x100) as u8,
                        (self.segments[7] / 0x100) as u8,
                        (self.segments[7] % 0x100) as u8,
                    ],
                },
            )
        } else {
            None
        }
    }
}

impl ArchivedIpAddr {
    /// Returns the owned address with the same value.
    pub fn as_ipaddr(&self) -> (r: IpAddr)
        ensures
            r == self@,
    {
        match self {
            ArchivedIpAddr::V4(ipv4) => IpAddr::V4(ipv4.as_ipv4()),
            ArchivedIpAddr::V6(ipv6) => IpAddr::V6(ipv6.as_ipv6()),
        }
    }

    /// Returns `true` if this address belongs to the four-octet family.
    pub fn is_ipv4(&self) -> (r: bool)
        ensures
            r == (self@ is V4),
    {
        matches!(self, ArchivedIpAddr::V4(_))
    }

    /// Returns `true` if this address belongs to the eight-segment family.
    pub fn is_ipv6(&self) -> (r: bool)
        ensures
            r == (self@ is V6),
    {
        matches!(self, ArchivedIpAddr::V6(_))
    }

    /// Returns `true` if this is a loopback address of its family.
    pub fn is_loopback(&self) -> (r: bool)
        ensures
            r == self@.is_loopback(),
    {
        match self {
            ArchivedIpAddr::V4(ip) => ip.is_loopback(),
            ArchivedIpAddr::V6(ip) => ip.is_loopback(),
        }
    }

    /// Returns `true` if this is a multicast address of its family.
    pub fn is_multicast(&self) -> (r: bool)
        ensures
            r == self@.is_multicast(),
    {
        match self {
            ArchivedIpAddr::V4(ip) => ip.is_multicast(),
            ArchivedIpAddr::V6(ip) => ip.is_multicast(),
        }
    }

    /// Returns `true` for the special 'unspecified' address of its family.
    pub fn is_unspecified(&self) -> (r: bool)
        ensures
            r == self@.is_unspecified(),
    {
        match self {
            ArchivedIpAddr::V4(ip) => ip.is_unspecified(),
            ArchivedIpAddr::V6(ip) => ip.is_unspecified(),
        }
    }
}

impl ArchivedSocketAddrV4 {
    /// Returns the owned endpoint with the same value.
    pub fn as_socket_addr_v4(&self) -> (r: SocketAddrV4)
        ensures
            r == self@,
    {
        SocketAddrV4 { ip: self.ip.as_ipv4(), port: self.port }
    }

    /// Returns the address associated with this endpoint.
    pub fn ip(&self) -> (r: &ArchivedIpv4Addr)
        ensures
            r == self.ip,
    {
        &self.ip
    }

    /// Returns the port number associated with this endpoint.
    pub fn port(&self) -> (r: u16)
        ensures
            r == self.port,
    {
        self.port
    }
}

impl ArchivedSocketAddrV6 {
    /// Returns the owned endpoint with the same value.
    pub fn as_socket_addr_v6(&self) -> (r: SocketAddrV6)
        ensures
            r == self@,
    {
        SocketAddrV6 {
            ip: self.ip.as_ipv6(),
            port: self.port,
            flowinfo: self.flowinfo,
            scope_id: self.scope_id,
        }
    }

    /// Returns the flow information associated with this endpoint.
    pub fn flowinfo(&self) -> (r: u32)
        ensures
            r == self.flowinfo,
    {
        self.flowinfo
    }

    /// Returns the address associated with this endpoint.
    pub fn ip(&self) -> (r: &ArchivedIpv6Addr)
        ensures
            r == self.ip,
    {
        &self.ip
    }

    /// Returns the port number associated with this endpoint.
    pub fn port(&self) -> (r: u16)
        ensures
            r == self.port,
    {
        self.port
    }

    /// Returns the scope identifier associated with this endpoint.
    pub fn scope_id(&self) -> (r: u32)
        ensures
            r == self.scope_id,
    {
        self.scope_id
    }
}

impl ArchivedSocketAddr {
    /// Returns the owned endpoint with the same value.
    pub fn as_socket_addr(&self) -> (r: SocketAddr)
        ensures
            r == self@,
    {
        match self {
            ArchivedSocketAddr::V4(addr) => SocketAddr::V4(addr.as_socket_addr_v4()),
            ArchivedSocketAddr::V6(addr) => SocketAddr::V6(addr.as_socket_addr_v6()),
        }
    }

    /// Returns the owned address associated with this endpoint.
    pub fn ip(&self) -> (r: IpAddr)
        ensures
            r == match self@ {
                SocketAddr::V4(a) => IpAddr::V4(a.ip),
                SocketAddr::V6(a) => IpAddr::V6(a.ip),
            },
    {
        match self {
            ArchivedSocketAddr::V4(addr) => IpAddr::V4(addr.ip().as_ipv4()),
            ArchivedSocketAddr::V6(addr) => IpAddr::V6(addr.ip().as_ipv6()),
        }
    }

    /// Returns the port number associated with this endpoint.
    pub fn port(&self) -> (r: u16)
        ensures
            r == match self@ {
                SocketAddr::V4(a) => a.port,
                SocketAddr::V6(a) => a.port,
            },
    {
        match self {
            ArchivedSocketAddr::V4(addr) => addr.port(),
            ArchivedSocketAddr::V6(addr) => addr.port(),
        }
    }

    /// Returns `true` if this endpoint's address belongs to the
    /// four-octet family.
    pub fn is_ipv4(&self) -> (r: bool)
        ensures
            r == (self@ is V4),
    {
        matches!(self, ArchivedSocketAddr::V4(_))
    }

    /// Returns `true` if this endpoint's address belongs to the
    /// eight-segment family.
    pub fn is_ipv6(&self) -> (r: bool)
        ensures
            r == (self@ is V6),
    {
        matches!(self, ArchivedSocketAddr::V6(_))
    }
}

} // verus!
