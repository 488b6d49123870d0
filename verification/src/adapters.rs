//! The fallible serialize and deserialize adapters around the protocol.
//!
//! `serialize` hands a value to a caller-supplied backend and produces
//! the resolver that the later, infallible `resolve` call consumes; it is
//! the only step that may fail, with the backend's own error. None of the
//! address types needs out-of-line storage, so their resolvers are
//! trivial and their serialize steps never fail. `deserialize`
//! reconstructs a fresh owned value from an archived one through the same
//! backend abstraction; for these types it reduces to the canonical
//! decoding and never fails either, but the signatures keep the fallible
//! shape that composite types require.

use vstd::prelude::*;

use crate::addr::{IpAddr, Ipv4Addr, Ipv6Addr, SocketAddr, SocketAddrV4, SocketAddrV6};
use crate::archived::{
    ArchivedIpAddr, ArchivedIpv4Addr, ArchivedIpv6Addr, ArchivedSocketAddr, ArchivedSocketAddrV4,
    ArchivedSocketAddrV6,
};

verus! {

/// A backend that serialize and deserialize calls may fail through: it
/// only fixes the error type those operations propagate.
pub trait Fallible {
    /// The backend's error.
    type Error;
}

impl Ipv4Addr {
    /// Hands this value to the backend. No out-of-line data is needed,
    /// so the resolver is trivial and the step cannot fail.
    pub fn serialize<S: Fallible>(&self, serializer: &mut S) -> (r: Result<(), S::Error>)
        ensures
            r is Ok,
    {
        Ok(())
    }
}

impl Ipv6Addr {
    /// Hands this value to the backend. No out-of-line data is needed,
    /// so the resolver is trivial and the step cannot fail.
    pub fn serialize<S: Fallible>(&self, serializer: &mut S) -> (r: Result<(), S::Error>)
        ensures
            r is Ok,
    {
        Ok(())
    }
}

impl IpAddr {
    /// Hands the selected variant's payload to the backend; neither
    /// family needs out-of-line data, so the step cannot fail.
    pub fn serialize<S: Fallible>(&self, serializer: &mut S) -> (r: Result<(), S::Error>)
        ensures
            r is Ok,
    {
        match self {
            IpAddr::V4(ipv4_addr) => ipv4_addr.serialize(serializer),
            IpAddr::V6(ipv6_addr) => ipv6_addr.serialize(serializer),
        }
    }
}

impl SocketAddrV4 {
    /// Hands this value to the backend. No out-of-line data is needed,
    /// so the resolver is trivial and the step cannot fail.
    pub fn serialize<S: Fallible>(&self, serializer: &mut S) -> (r: Result<(), S::Error>)
        ensures
            r is Ok,
    {
        Ok(())
    }
}

impl SocketAddrV6 {
    /// Hands this value to the backend. No out-of-line data is needed,
    /// so the resolver is trivial and the step cannot fail.
    pub fn serialize<S: Fallible>(&self, serializer: &mut S) -> (r: Result<(), S::Error>)
        ensures
            r is Ok,
    {
        Ok(())
    }
}

impl SocketAddr {
    /// Hands the selected variant's payload to the backend; neither
    /// family needs out-of-line data, so the step cannot fail.
    pub fn serialize<S: Fallible>(&self, serializer: &mut S) -> (r: Result<(), S::Error>)
        ensures
            r is Ok,
    {
        match self {
            SocketAddr::V4(socket_addr) => socket_addr.serialize(serializer),
            SocketAddr::V6(socket_addr) => socket_addr.serialize(serializer),
        }
    }
}

impl ArchivedIpv4Addr {
    /// Reconstructs the owned value this archived value decodes to.
    pub fn deserialize<D: Fallible>(&self, deserializer: &mut D) -> (r: Result<
        Ipv4Addr,
        D::Error,
    >)
        ensures
            r matches Ok(v) && v == self@,
    {
        Ok(self.as_ipv4())
    }
}

impl ArchivedIpv6Addr {
    /// Reconstructs the owned value this archived value decodes to.
    pub fn deserialize<D: Fallible>(&self, deserializer: &mut D) -> (r: Result<
        Ipv6Addr,
        D::Error,
    >)
        ensures
            r matches Ok(v) && v == self@,
    {
        Ok(self.as_ipv6())
    }
}

impl ArchivedIpAddr {
    /// Reconstructs the owned value this archived value decodes to,
    /// deserializing the selected variant's payload in place.
    pub fn deserialize<D: Fallible>(&self, deserializer: &mut D) -> (r: Result<IpAddr, D::Error>)
        ensures
            r matches Ok(v) && v == self@,
    {
        match self {
            ArchivedIpAddr::V4(ipv4_addr) => {
                match ipv4_addr.deserialize(deserializer) {
                    Ok(ip) => Ok(IpAddr::V4(ip)),
                    Err(e) => Err(e),
                }
            },
            ArchivedIpAddr::V6(ipv6_addr) => {
                match ipv6_addr.deserialize(deserializer) {
                    Ok(ip) => Ok(IpAddr::V6(ip)),
                    Err(e) => Err(e),
                }
            },
        }
    }
}

impl ArchivedSocketAddrV4 {
    /// Reconstructs the owned value this archived value decodes to.
    pub fn deserialize<D: Fallible>(&self, deserializer: &mut D) -> (r: Result<
        SocketAddrV4,
        D::Error,
    >)
        ensures
            r matches Ok(v) && v == self@,
    {
        match self.ip.deserialize(deserializer) {
            Ok(ip) => Ok(SocketAddrV4 { ip, port: self.port }),
            Err(e) => Err(e),
        }
    }
}

impl ArchivedSocketAddrV6 {
    /// Reconstructs the owned value this archived value decodes to.
    pub fn deserialize<D: Fallible>(&self, deserializer: &mut D) -> (r: Result<
        SocketAddrV6,
        D::Error,
    >)
        ensures
            r matches Ok(v) && v == self@,
    {
        match self.ip.deserialize(deserializer) {
            Ok(ip) => Ok(
                SocketAddrV6 {
                    ip,
                    port: self.port,
                    flowinfo: self.flowinfo,
                    scope_id: self.scope_id,
                },
            ),
            Err(e) => Err(e),
        }
    }
}

impl ArchivedSocketAddr {
    /// Reconstructs the owned value this archived value decodes to,
    /// deserializing the selected variant's payload in place.
    pub fn deserialize<D: Fallible>(&self, deserializer: &mut D) -> (r: Result<
        SocketAddr,
        D::Error,
    >)
        ensures
            r matches Ok(v) && v == self@,
    {
        match self {
            ArchivedSocketAddr::V4(socket_addr) => {
                match socket_addr.deserialize(deserializer) {
                    Ok(addr) => Ok(SocketAddr::V4(addr)),
                    Err(e) => Err(e),
                }
            },
            ArchivedSocketAddr::V6(socket_addr) => {
                match socket_addr.deserialize(deserializer) {
                    Ok(addr) => Ok(SocketAddr::V6(addr)),
                    Err(e) => Err(e),
                }
            },
        }
    }
}

} // verus!
