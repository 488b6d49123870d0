//! The position-aware write protocol and the readers that are its inverse.
//!
//! `resolve` writes the complete archived representation of a value into
//! its slot: the byte range of the declared size that starts at the
//! value's absolute position inside the destination buffer. The write is
//! infallible, touches no byte outside the slot, and leaves no byte of
//! the slot unwritten, so archiving independent values into disjoint
//! slots of one buffer is safe and deterministic. Composite values
//! recurse field by field, advancing the position by each field's offset
//! within the declared layout, so every nested write sees its true
//! absolute placement. The `read` operations decode a slot back into an
//! archived value.

use vstd::prelude::*;

use crate::addr::{IpAddr, Ipv4Addr, Ipv6Addr, SocketAddr, SocketAddrV4, SocketAddrV6};
use crate::archived::{
    ArchivedIpAddr, ArchivedIpv4Addr, ArchivedIpv6Addr, ArchivedSocketAddr, ArchivedSocketAddrV4,
    ArchivedSocketAddrV6,
};
use crate::layout::{
    ip_addr_enc, ipv4_enc, ipv6_enc, segments_dec, socket_addr_enc, socket_v4_enc, socket_v6_enc,
    u16_from_le, u16_le_bytes, u32_from_le, u32_le_bytes, zero_bytes, IPV4_SIZE, IPV6_SIZE,
    IP_ADDR_SIZE, PAYLOAD_OFFSET, SOCKET_ADDR_SIZE, SOCKET_V4_SIZE, SOCKET_V6_SIZE, TAG_V4,
    TAG_V6, V4_PORT_OFFSET, V6_FLOWINFO_OFFSET, V6_PORT_OFFSET, V6_SCOPE_ID_OFFSET,
};

verus! {

/// A write stayed within its slot: the buffer kept its length and every
/// byte outside `[pos, pos + n)` kept its value.
pub open spec fn preserves_outside(pre: Seq<u8>, post: Seq<u8>, pos: int, n: int) -> bool {
    &&& post.len() == pre.len()
    &&& forall|i: int| 0 <= i < pre.len() && !(pos <= i < pos + n) ==> post[i] == pre[i]
}

/// Writes `n` zero bytes at `pos`: the deterministic fill for the bytes
/// of a union slot past a narrow variant's payload.
pub fn fill_zeros(buf: &mut Vec<u8>, pos: usize, n: usize)
    requires
        pos + n <= old(buf).len(),
    ensures
        preserves_outside(old(buf)@, final(buf)@, pos as int, n as int),
        final(buf)@.subrange(pos as int, pos as int + n as int) == zero_bytes(n as nat),
{
    let mut i: usize = 0;
    while i < n
        invariant
            i <= n,
            pos + n <= buf.len(),
            buf.len() == old(buf)@.len(),
            forall|j: int| 0 <= j < buf@.len() && !(pos <= j < pos + i) ==> buf@[j] == old(buf)@[j],
            forall|j: int| pos <= j < pos + i ==> buf@[j] == 0u8,
        decreases n - i,
    {
        buf[pos + i] = 0;
        i += 1;
    }
    assert(buf@.subrange(pos as int, pos as int + n as int) =~= zero_bytes(n as nat));
}

/// Writes a 16-bit value at `pos` in little-endian order.
pub fn write_u16_le(buf: &mut Vec<u8>, pos: usize, x: u16)
    requires
        pos + 2 <= old(buf).len(),
    ensures
        preserves_outside(old(buf)@, final(buf)@, pos as int, 2),
        final(buf)@.subrange(pos as int, pos as int + 2) == u16_le_bytes(x),
{
    buf[pos] = (x % 0x100) as u8;
    buf[pos + 1] = (x / 0x100) as u8;
    assert(buf@.subrange(pos as int, pos as int + 2) =~= u16_le_bytes(x));
}

/// Writes a 32-bit value at `pos` in little-endian order.
pub fn write_u32_le(buf: &mut Vec<u8>, pos: usize, x: u32)
    requires
        pos + 4 <= old(buf).len(),
    ensures
        preserves_outside(old(buf)@, final(buf)@, pos as int, 4),
        final(buf)@.subrange(pos as int, pos as int + 4) == u32_le_bytes(x),
{
    buf[pos] = (x % 0x100) as u8;
    buf[pos + 1] = ((x / 0x100) % 0x100) as u8;
    buf[pos + 2] = ((x / 0x10000) % 0x100) as u8;
    buf[pos + 3] = ((x / 0x1000000) % 0x100) as u8;
    assert(buf@.subrange(pos as int, pos as int + 4) =~= u32_le_bytes(x));
}

impl Ipv4Addr {
    /// Writes this address's archived representation into its slot: the
    /// four octets, verbatim.
    pub fn resolve(&self, pos: usize, resolver: (), buf: &mut Vec<u8>)
        requires
            pos + IPV4_SIZE <= old(buf).len(),
        ensures
            preserves_outside(old(buf)@, final(buf)@, pos as int, IPV4_SIZE as int),
            final(buf)@.subrange(pos as int, pos as int + IPV4_SIZE as int) == ipv4_enc(*self),
    {
        buf[pos] = self.octets[0];
        buf[pos + 1] = self.octets[1];
        buf[pos + 2] = self.octets[2];
        buf[pos + 3] = self.octets[3];
        assert(buf@.subrange(pos as int, pos as int + IPV4_SIZE as int) =~= ipv4_enc(*self));
    }
}

impl Ipv6Addr {
    /// Writes this address's archived representation into its slot: the
    /// eight segments, each stored big-endian.
    pub fn resolve(&self, pos: usize, resolver: (), buf: &mut Vec<u8>)
        requires
            pos + IPV6_SIZE <= old(buf).len(),
        ensures
            preserves_outside(old(buf)@, final(buf)@, pos as int, IPV6_SIZE as int),
            final(buf)@.subrange(pos as int, pos as int + IPV6_SIZE as int) == ipv6_enc(*self),
    {
        buf[pos] = (self.segments[0] / 0x100) as u8;
        buf[pos + 1] = (self.segments[0] % 0x100) as u8;
        buf[pos + 2] = (self.segments[1] / 0x100) as u8;
        buf[pos + 3] = (self.segments[1] % 0x100) as u8;
        buf[pos + 4] = (self.segments[2] / 0x100) as u8;
        buf[pos + 5] = (self.segments[2] % 0x100) as u8;
        buf[pos + 6] = (self.segments[3] / 0x100) as u8;
        buf[pos + 7] = (self.segments[3] % 0x100) as u8;
        buf[pos + 8] = (self.segments[4] / 0x100) as u8;
        buf[pos + 9] = (self.segments[4] % 0x100) as u8;
        buf[pos + 10] = (self.segments[5] / 0x100) as u8;
        buf[pos + 11] = (self.segments[5] % 0x100) as u8;
        buf[pos + 12] = (self.segments[6] / 0x100) as u8;
        buf[pos + 13] = (self.segments[6] % 0x100) as u8;
        buf[pos + 14] = (self.segments[7] / 0x100) as u8;
        buf[pos + 15] = (self.segments[7] % 0x100) as u8;
        assert(buf@.subrange(pos as int, pos as int + IPV6_SIZE as int) =~= ipv6_enc(*self));
    }
}

impl IpAddr {
    /// Writes this address's archived representation into its slot: the
    /// variant's discriminant, the variant's payload just past it, and a
    /// zero fill up to the slot size.
    pub fn resolve(&self, pos: usize, resolver: (), buf: &mut Vec<u8>)
        requires
            pos + IP_ADDR_SIZE <= old(buf).len(),
        ensures
            preserves_outside(old(buf)@, final(buf)@, pos as int, IP_ADDR_SIZE as int),
            final(buf)@.subrange(pos as int, pos as int + IP_ADDR_SIZE as int) == ip_addr_enc(
                *self,
            ),
    {
        match self {
            IpAddr::V4(a) => {
                buf[pos] = TAG_V4;
                a.resolve(pos + PAYLOAD_OFFSET, resolver, buf);
                fill_zeros(buf, pos + PAYLOAD_OFFSET + IPV4_SIZE, 12);
                assert(buf@.subrange(pos as int, pos as int + IP_ADDR_SIZE as int) =~= seq![
                    TAG_V4,
                ] + ipv4_enc(*a) + zero_bytes(12));
            },
            IpAddr::V6(a) => {
                buf[pos] = TAG_V6;
                a.resolve(pos + PAYLOAD_OFFSET, resolver, buf);
                assert(buf@.subrange(pos as int, pos as int + IP_ADDR_SIZE as int) =~= seq![
                    TAG_V6,
                ] + ipv6_enc(*a));
            },
        }
    }
}

impl SocketAddrV4 {
    /// Writes this endpoint's archived representation into its slot: the
    /// address at its offset, then the port, little-endian.
    pub fn resolve(&self, pos: usize, resolver: (), buf: &mut Vec<u8>)
        requires
            pos + SOCKET_V4_SIZE <= old(buf).len(),
        ensures
            preserves_outside(old(buf)@, final(buf)@, pos as int, SOCKET_V4_SIZE as int),
            final(buf)@.subrange(pos as int, pos as int + SOCKET_V4_SIZE as int) == socket_v4_enc(
                *self,
            ),
    {
        self.ip.resolve(pos, resolver, buf);
        write_u16_le(buf, pos + V4_PORT_OFFSET, self.port);
        assert(buf@.subrange(pos as int, pos as int + SOCKET_V4_SIZE as int) =~= ipv4_enc(self.ip)
            + u16_le_bytes(self.port));
    }
}

impl SocketAddrV6 {
    /// Writes this endpoint's archived representation into its slot: the
    /// address at its offset, then port, flow information and scope
    /// identifier, each little-endian.
    pub fn resolve(&self, pos: usize, resolver: (), buf: &mut Vec<u8>)
        requires
            pos + SOCKET_V6_SIZE <= old(buf).len(),
        ensures
            preserves_outside(old(buf)@, final(buf)@, pos as int, SOCKET_V6_SIZE as int),
            final(buf)@.subrange(pos as int, pos as int + SOCKET_V6_SIZE as int) == socket_v6_enc(
                *self,
            ),
    {
        self.ip.resolve(pos, resolver, buf);
        write_u16_le(buf, pos + V6_PORT_OFFSET, self.port);
        write_u32_le(buf, pos + V6_FLOWINFO_OFFSET, self.flowinfo);
        write_u32_le(buf, pos + V6_SCOPE_ID_OFFSET, self.scope_id);
        assert(buf@.subrange(pos as int, pos as int + SOCKET_V6_SIZE as int) =~= ipv6_enc(self.ip)
            + u16_le_bytes(self.port) + u32_le_bytes(self.flowinfo) + u32_le_bytes(self.scope_id));
    }
}

impl SocketAddr {
    /// Writes this endpoint's archived representation into its slot: the
    /// variant's discriminant, the variant's payload just past it, and a
    /// zero fill up to the slot size.
    pub fn resolve(&self, pos: usize, resolver: (), buf: &mut Vec<u8>)
        requires
            pos + SOCKET_ADDR_SIZE <= old(buf).len(),
        ensures
            preserves_outside(old(buf)@, final(buf)@, pos as int, SOCKET_ADDR_SIZE as int),
            final(buf)@.subrange(pos as int, pos as int + SOCKET_ADDR_SIZE as int)
                == socket_addr_enc(*self),
    {
        match self {
            SocketAddr::V4(a) => {
                buf[pos] = TAG_V4;
                a.resolve(pos + PAYLOAD_OFFSET, resolver, buf);
                fill_zeros(buf, pos + PAYLOAD_OFFSET + SOCKET_V4_SIZE, 20);
                assert(buf@.subrange(pos as int, pos as int + SOCKET_ADDR_SIZE as int) =~= seq![
                    TAG_V4,
                ] + socket_v4_enc(*a) + zero_bytes(20));
            },
            SocketAddr::V6(a) => {
                buf[pos] = TAG_V6;
                a.resolve(pos + PAYLOAD_OFFSET, resolver, buf);
                assert(buf@.subrange(pos as int, pos as int + SOCKET_ADDR_SIZE as int) =~= seq![
                    TAG_V6,
                ] + socket_v6_enc(*a));
            },
        }
    }
}

impl ArchivedIpv4Addr {
    /// Reads the archived address stored in the slot at `pos`.
    pub fn read(buf: &Vec<u8>, pos: usize) -> (r: ArchivedIpv4Addr)
        requires
            pos + IPV4_SIZE <= buf.len(),
        ensures
            r.octets@ == buf@.subrange(pos as int, pos as int + IPV4_SIZE as int),
    {
        let r = ArchivedIpv4Addr { octets: [buf[pos], buf[pos + 1], buf[pos + 2], buf[pos + 3]] };
        proof {
            assert(r.octets@ =~= buf@.subrange(pos as int, pos as int + IPV4_SIZE as int));
        }
        r
    }
}

impl ArchivedIpv6Addr {
    /// Reads the archived address stored in the slot at `pos`, turning
    /// each big-endian byte pair back into a segment value.
    pub fn read(buf: &Vec<u8>, pos: usize) -> (r: ArchivedIpv6Addr)
        requires
            pos + IPV6_SIZE <= buf.len(),
        ensures
            r.segments@ == segments_dec(
                buf@.subrange(pos as int, pos as int + IPV6_SIZE as int),
            ),
    {
        let r = ArchivedIpv6Addr {
            segments: [
                (buf[pos] as u16) * 0x100 + (buf[pos + 1] as u16),
                (buf[pos + 2] as u16) * 0x100 + (buf[pos + 3] as u16),
                (buf[pos + 4] as u16) * 0x100 + (buf[pos + 5] as u16),
                (buf[pos + 6] as u16) * 0x100 + (buf[pos + 7] as u16),
                (buf[pos + 8] as u16) * 0x100 + (buf[pos + 9] as u16),
                (buf[pos + 10] as u16) * 0x100 + (buf[pos + 11] as u16),
                (buf[pos + 12] as u16) * 0x100 + (buf[pos + 13] as u16),
                (buf[pos + 14] as u16) * 0x100 + (buf[pos + 15] as u16),
            ],
        };
        proof {
            assert(r.segments@ =~= segments_dec(
                buf@.subrange(pos as int, pos as int + IPV6_SIZE as int),
            ));
        }
        r
    }
}

impl ArchivedIpAddr {
    /// Reads the archived address union stored in the slot at `pos`: the
    /// discriminant byte selects the variant, the payload follows it.
    /// The buffer must hold a well-formed archive at `pos`; validating
    /// untrusted bytes is outside this protocol.
    pub fn read(buf: &Vec<u8>, pos: usize) -> (r: ArchivedIpAddr)
        requires
            pos + IP_ADDR_SIZE <= buf.len(),
            buf@[pos as int] == TAG_V4 || buf@[pos as int] == TAG_V6,
        ensures
            buf@[pos as int] == TAG_V4 ==> (r matches ArchivedIpAddr::V4(a) && a.octets@
                == buf@.subrange(
                pos + PAYLOAD_OFFSET as int,
                pos + PAYLOAD_OFFSET as int + IPV4_SIZE as int,
            )),
            buf@[pos as int] == TAG_V6 ==> (r matches ArchivedIpAddr::V6(a) && a.segments@
                == segments_dec(
                buf@.subrange(
                    pos + PAYLOAD_OFFSET as int,
                    pos + PAYLOAD_OFFSET as int + IPV6_SIZE as int,
                ),
            )),
    {
        if buf[pos] == TAG_V4 {
            ArchivedIpAddr::V4(ArchivedIpv4Addr::read(buf, pos + PAYLOAD_OFFSET))
        } else {
            ArchivedIpAddr::V6(ArchivedIpv6Addr::read(buf, pos + PAYLOAD_OFFSET))
        }
    }
}

impl ArchivedSocketAddrV4 {
    /// Reads the archived endpoint stored in the slot at `pos`.
    pub fn read(buf: &Vec<u8>, pos: usize) -> (r: ArchivedSocketAddrV4)
        requires
            pos + SOCKET_V4_SIZE <= buf.len(),
        ensures
            r.ip.octets@ == buf@.subrange(pos as int, pos as int + IPV4_SIZE as int),
            r.port == u16_from_le(
                buf@[pos + V4_PORT_OFFSET as int],
                buf@[pos + V4_PORT_OFFSET as int + 1],
            ),
    {
        ArchivedSocketAddrV4 {
            ip: ArchivedIpv4Addr::read(buf, pos),
            port: (buf[pos + V4_PORT_OFFSET] as u16) + (buf[pos + V4_PORT_OFFSET + 1] as u16)
                * 0x100,
        }
    }
}

impl ArchivedSocketAddrV6 {
    /// Reads the archived endpoint stored in the slot at `pos`.
    pub fn read(buf: &Vec<u8>, pos: usize) -> (r: ArchivedSocketAddrV6)
        requires
            pos + SOCKET_V6_SIZE <= buf.len(),
        ensures
            r.ip.segments@ == segments_dec(
                buf@.subrange(pos as int, pos as int + IPV6_SIZE as int),
            ),
            r.port == u16_from_le(
                buf@[pos + V6_PORT_OFFSET as int],
                buf@[pos + V6_PORT_OFFSET as int + 1],
            ),
            r.flowinfo == u32_from_le(
                buf@[pos + V6_FLOWINFO_OFFSET as int],
                buf@[pos + V6_FLOWINFO_OFFSET as int + 1],
                buf@[pos + V6_FLOWINFO_OFFSET as int + 2],
                buf@[pos + V6_FLOWINFO_OFFSET as int + 3],
            ),
            r.scope_id == u32_from_le(
                buf@[pos + V6_SCOPE_ID_OFFSET as int],
                buf@[pos + V6_SCOPE_ID_OFFSET as int + 1],
                buf@[pos + V6_SCOPE_ID_OFFSET as int + 2],
                buf@[pos + V6_SCOPE_ID_OFFSET as int + 3],
            ),
    {
        ArchivedSocketAddrV6 {
            ip: ArchivedIpv6Addr::read(buf, pos),
            port: (buf[pos + V6_PORT_OFFSET] as u16) + (buf[pos + V6_PORT_OFFSET + 1] as u16)
                * 0x100,
            flowinfo: (buf[pos + V6_FLOWINFO_OFFSET] as u32) + (buf[pos + V6_FLOWINFO_OFFSET
                + 1] as u32) * 0x100 + (buf[pos + V6_FLOWINFO_OFFSET + 2] as u32) * 0x10000 + (
            buf[pos + V6_FLOWINFO_OFFSET + 3] as u32) * 0x1000000,
            scope_id: (buf[pos + V6_SCOPE_ID_OFFSET] as u32) + (buf[pos + V6_SCOPE_ID_OFFSET
                + 1] as u32) * 0x100 + (buf[pos + V6_SCOPE_ID_OFFSET + 2] as u32) * 0x10000 + (
            buf[pos + V6_SCOPE_ID_OFFSET + 3] as u32) * 0x1000000,
        }
    }
}

impl ArchivedSocketAddr {
    /// Reads the archived endpoint union stored in the slot at `pos`: the
    /// discriminant byte selects the variant, the payload follows it.
    /// The buffer must hold a well-formed archive at `pos`; validating
    /// untrusted bytes is outside this protocol.
    pub fn read(buf: &Vec<u8>, pos: usize) -> (r: ArchivedSocketAddr)
        requires
            pos + SOCKET_ADDR_SIZE <= buf.len(),
            buf@[pos as int] == TAG_V4 || buf@[pos as int] == TAG_V6,
        ensures
            buf@[pos as int] == TAG_V4 ==> (r matches ArchivedSocketAddr::V4(a) && a.ip.octets@
                == buf@.subrange(
                pos + PAYLOAD_OFFSET as int,
                pos + PAYLOAD_OFFSET as int + IPV4_SIZE as int,
            ) && a.port == u16_from_le(
                buf@[pos + PAYLOAD_OFFSET as int + V4_PORT_OFFSET as int],
                buf@[pos + PAYLOAD_OFFSET as int + V4_PORT_OFFSET as int + 1],
            )),
            buf@[pos as int] == TAG_V6 ==> (r matches ArchivedSocketAddr::V6(a) && a.ip.segments@
                == segments_dec(
                buf@.subrange(
                    pos + PAYLOAD_OFFSET as int,
                    pos + PAYLOAD_OFFSET as int + IPV6_SIZE as int,
                ),
            ) && a.port == u16_from_le(
                buf@[pos + PAYLOAD_OFFSET as int + V6_PORT_OFFSET as int],
                buf@[pos + PAYLOAD_OFFSET as int + V6_PORT_OFFSET as int + 1],
            ) && a.flowinfo == u32_from_le(
                buf@[pos + PAYLOAD_OFFSET as int + V6_FLOWINFO_OFFSET as int],
                buf@[pos + PAYLOAD_OFFSET as int + V6_FLOWINFO_OFFSET as int + 1],
                buf@[pos + PAYLOAD_OFFSET as int + V6_FLOWINFO_OFFSET as int + 2],
                buf@[pos + PAYLOAD_OFFSET as int + V6_FLOWINFO_OFFSET as int + 3],
            ) && a.scope_id == u32_from_le(
                buf@[pos + PAYLOAD_OFFSET as int + V6_SCOPE_ID_OFFSET as int],
                buf@[pos + PAYLOAD_OFFSET as int + V6_SCOPE_ID_OFFSET as int + 1],
                buf@[pos + PAYLOAD_OFFSET as int + V6_SCOPE_ID_OFFSET as int + 2],
                buf@[pos + PAYLOAD_OFFSET as int + V6_SCOPE_ID_OFFSET as int + 3],
            )),
    {
        if buf[pos] == TAG_V4 {
            ArchivedSocketAddr::V4(ArchivedSocketAddrV4::read(buf, pos + PAYLOAD_OFFSET))
        } else {
            ArchivedSocketAddr::V6(ArchivedSocketAddrV6::read(buf, pos + PAYLOAD_OFFSET))
        }
    }
}

} // verus!
