//! Owned, host-representation address and endpoint types.
//!
//! These are the domain values the archive protocol consumes and the
//! canonical forms archived values decode back to. Each is plain data:
//! a four-octet address, an eight-segment address, socket endpoints that
//! pair an address with a port (and, for the multi-segment family, flow
//! and scope fields), and tagged unions over the two address families.

use vstd::prelude::*;

verus! {

/// An owned four-octet address.
#[derive(Clone, Copy, Debug, Hash)]
pub struct Ipv4Addr {
    /// The four octets, most significant first.
    pub octets: [u8; 4],
}

/// An owned eight-segment address. Each segment is a 16-bit value; the
/// owned form keeps segments as plain integers, byte order is a concern
/// of the archived encoding alone.
#[derive(Clone, Copy, Debug, Hash)]
pub struct Ipv6Addr {
    /// The eight 16-bit segments, most significant first.
    pub segments: [u16; 8],
}

/// An owned address of either family.
#[derive(Clone, Copy, Debug, Hash)]
pub enum IpAddr {
    /// A four-octet address.
    V4(Ipv4Addr),
    /// An eight-segment address.
    V6(Ipv6Addr),
}

/// An owned endpoint over a four-octet address: address plus 16-bit port.
#[derive(Clone, Copy, Debug, Hash)]
pub struct SocketAddrV4 {
    /// The address.
    pub ip: Ipv4Addr,
    /// The port number.
    pub port: u16,
}

/// An owned endpoint over an eight-segment address: address, 16-bit port,
/// and 32-bit flow and scope fields.
#[derive(Clone, Copy, Debug, Hash)]
pub struct SocketAddrV6 {
    /// The address.
    pub ip: Ipv6Addr,
    /// The port number.
    pub port: u16,
    /// The flow information field.
    pub flowinfo: u32,
    /// The scope identifier field.
    pub scope_id: u32,
}

/// An owned endpoint of either family.
#[derive(Clone, Copy, Debug, Hash)]
pub enum SocketAddr {
    /// An endpoint over a four-octet address.
    V4(SocketAddrV4),
    /// An endpoint over an eight-segment address.
    V6(SocketAddrV6),
}

impl Ipv4Addr {
    /// The address lies in the loopback range: first octet 127.
    pub open spec fn is_loopback(self) -> bool {
        self.octets@[0] == 127
    }

    /// The address is the broadcast address: all four octets 255.
    pub open spec fn is_broadcast(self) -> bool {
        self.octets@[0] == 255 && self.octets@[1] == 255 && self.octets@[2] == 255
            && self.octets@[3] == 255
    }

    /// The address is the unspecified address: all four octets zero.
    pub open spec fn is_unspecified(self) -> bool {
        self.octets@[0] == 0 && self.octets@[1] == 0 && self.octets@[2] == 0 && self.octets@[3]
            == 0
    }

    /// The address lies in one of the three private ranges: 10/8,
    /// 172.16/12 or 192.168/16.
    pub open spec fn is_private(self) -> bool {
        ||| self.octets@[0] == 10
        ||| (self.octets@[0] == 172 && 16 <= self.octets@[1] <= 31)
        ||| (self.octets@[0] == 192 && self.octets@[1] == 168)
    }

    /// The address lies in the link-local range 169.254/16.
    pub open spec fn is_link_local(self) -> bool {
        self.octets@[0] == 169 && self.octets@[1] == 254
    }

    /// The address lies in the multicast range 224/4.
    pub open spec fn is_multicast(self) -> bool {
        224 <= self.octets@[0] <= 239
    }

    /// The address lies in one of the three ranges designated for
    /// documentation: 192.0.2/24, 198.51.100/24 or 203.0.113/24.
    pub open spec fn is_documentation(self) -> bool {
        ||| (self.octets@[0] == 192 && self.octets@[1] == 0 && self.octets@[2] == 2)
        ||| (self.octets@[0] == 198 && self.octets@[1] == 51 && self.octets@[2] == 100)
        ||| (self.octets@[0] == 203 && self.octets@[1] == 0 && self.octets@[2] == 113)
    }

    /// Builds an address from its four octets, most significant first.
    pub fn new(a: u8, b: u8, c: u8, d: u8) -> (r: Ipv4Addr)
        ensures
            r.octets@ == seq![a, b, c, d],
    {
        Ipv4Addr { octets: [a, b, c, d] }
    }

    /// Returns the four octets, most significant first.
    pub fn octets(&self) -> (r: [u8; 4])
        ensures
            r == self.octets,
    {
        self.octets
    }
}

impl Ipv6Addr {
    /// The address is the loopback address: all segments zero but the
    /// last, which is 1.
    pub open spec fn is_loopback(self) -> bool {
        self.segments@[0] == 0 && self.segments@[1] == 0 && self.segments@[2] == 0
            && self.segments@[3] == 0 && self.segments@[4] == 0 && self.segments@[5] == 0
            && self.segments@[6] == 0 && self.segments@[7] == 1
    }

    /// The address is the unspecified address: all eight segments zero.
    pub open spec fn is_unspecified(self) -> bool {
        self.segments@[0] == 0 && self.segments@[1] == 0 && self.segments@[2] == 0
            && self.segments@[3] == 0 && self.segments@[4] == 0 && self.segments@[5] == 0
            && self.segments@[6] == 0 && self.segments@[7] == 0
    }

    /// The address lies in the multicast range: first byte 0xff.
    pub open spec fn is_multicast(self) -> bool {
        self.segments@[0] / 0x100 == 0xff
    }

    /// Builds an address from its eight segments, most significant first.
    pub fn new(a: u16, b: u16, c: u16, d: u16, e: u16, f: u16, g: u16, h: u16) -> (r: Ipv6Addr)
        ensures
            r.segments@ == seq![a, b, c, d, e, f, g, h],
    {
        Ipv6Addr { segments: [a, b, c, d, e, f, g, h] }
    }

    /// Returns the eight segments, most significant first.
    pub fn segments(&self) -> (r: [u16; 8])
        ensures
            r == self.segments,
    {
        self.segments
    }
}

impl IpAddr {
    /// The address is a loopback address of its family.
    pub open spec fn is_loopback(self) -> bool {
        match self {
            IpAddr::V4(a) => a.is_loopback(),
            IpAddr::V6(a) => a.is_loopback(),
        }
    }

    /// The address is a multicast address of its family.
    pub open spec fn is_multicast(self) -> bool {
        match self {
            IpAddr::V4(a) => a.is_multicast(),
            IpAddr::V6(a) => a.is_multicast(),
        }
    }

    /// The address is the unspecified address of its family.
    pub open spec fn is_unspecified(self) -> bool {
        match self {
            IpAddr::V4(a) => a.is_unspecified(),
            IpAddr::V6(a) => a.is_unspecified(),
        }
    }
}

impl SocketAddrV4 {
    /// Builds an endpoint from an address and a port.
    pub fn new(ip: Ipv4Addr, port: u16) -> (r: SocketAddrV4)
        ensures
            r == (SocketAddrV4 { ip, port }),
    {
        SocketAddrV4 { ip, port }
    }
}

impl SocketAddrV6 {
    /// Builds an endpoint from an address, a port, and the flow and scope
    /// fields.
    pub fn new(ip: Ipv6Addr, port: u16, flowinfo: u32, scope_id: u32) -> (r: SocketAddrV6)
        ensures
            r == (SocketAddrV6 { ip, port, flowinfo, scope_id }),
    {
        SocketAddrV6 { ip, port, flowinfo, scope_id }
    }
}

} // verus!
