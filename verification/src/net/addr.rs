//! Addresses as plain values.

use vstd::prelude::*;

verus! {

/// An internet address: the 32 bits of an IPv4 address or the 128 bits of an
/// IPv6 address, most significant octet first.
#[derive(Clone, Copy, Debug, PartialEq, Eq, Structural)]
pub enum IpAddress {
    V4(u32),
    V6(u128),
}

/// An internet address with a port.
#[derive(Clone, Copy, Debug, PartialEq, Eq, Structural)]
pub struct InetAddress {
    pub ip: IpAddress,
    pub port: u16,
}

/// The address of a socket as the operating system reports it: an internet
/// address, or the address of a socket in the file system.
#[derive(Clone, Copy, Debug, PartialEq, Eq, Structural)]
pub enum SockAddr {
    Inet(InetAddress),
    Unix,
}

impl IpAddress {
    /// Whether this is an IPv4 address.
    pub fn is_ipv4(&self) -> (r: bool)
        ensures
            r == (*self is V4),
    {
        match self {
            IpAddress::V4(_) => true,
            IpAddress::V6(_) => false,
        }
    }
}

impl SockAddr {
    /// The socket address that stands for an internet address.
    pub fn from_inet(addr: &InetAddress) -> (r: SockAddr)
        ensures
            r == SockAddr::Inet(*addr),
    {
        SockAddr::Inet(*addr)
    }

    /// The internet address that a socket address stands for. An address in
    /// the file system stands for none and is not accepted.
    pub fn to_inet(self) -> (r: InetAddress)
        requires
            self is Inet,
        ensures
            self == SockAddr::Inet(r),
    {
        match self {
            SockAddr::Inet(addr) => addr,
            SockAddr::Unix => vstd::pervasive::unreached(),
        }
    }
}

} // verus!
