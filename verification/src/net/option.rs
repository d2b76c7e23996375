//! Socket options as values: what a setter asks of the operating system, and
//! what a getter's answer means.

use vstd::prelude::*;
use crate::error::{Error, OsError};
use crate::net::addr::IpAddress;

verus! {

/// The linger setting of a socket in the operating system's own terms: a
/// switch, and the number of seconds for which closing waits.
#[derive(Clone, Copy, Debug, PartialEq, Eq, Structural)]
pub struct Linger {
    pub onoff: i32,
    pub seconds: i32,
}

/// A request to join or leave an IPv4 multicast group, on a given interface
/// or on the one that the operating system picks.
#[derive(Clone, Copy, Debug, PartialEq, Eq, Structural)]
pub struct Membership {
    pub group: u32,
    pub interface: Option<u32>,
}

/// The protocol level at which an option is set.
#[derive(Clone, Copy, Debug, PartialEq, Eq, Structural)]
pub enum SockLevel {
    Socket,
    Tcp,
    Ip,
}

/// One socket option with the value to set it to.
#[derive(Clone, Copy, Debug, PartialEq, Eq, Structural)]
pub enum SocketOption {
    Linger(Linger),
    ReuseAddr(bool),
    ReusePort(bool),
    TcpNoDelay(bool),
    IpAddMembership(Membership),
    IpDropMembership(Membership),
    IpMulticastTtl(u8),
}

/// What to ask of the operating system: set `option` on `descriptor`.
#[derive(Clone, Copy, Debug, PartialEq, Eq, Structural)]
pub struct SetOption {
    pub descriptor: i32,
    pub option: SocketOption,
}

impl SocketOption {
    /// The level of an option.
    pub open spec fn level_spec(self) -> SockLevel {
        match self {
            SocketOption::Linger(_) | SocketOption::ReuseAddr(_) | SocketOption::ReusePort(_) => SockLevel::Socket,
            SocketOption::TcpNoDelay(_) => SockLevel::Tcp,
            SocketOption::IpAddMembership(_) | SocketOption::IpDropMembership(_) | SocketOption::IpMulticastTtl(_) => SockLevel::Ip,
        }
    }

    /// The level at which this option is set: linger and the two reuse
    /// switches on the socket itself, send coalescing on TCP, everything about
    /// multicast on IP.
    pub fn level(&self) -> (r: SockLevel)
        ensures
            r == self.level_spec(),
    {
        match self {
            SocketOption::Linger(_) | SocketOption::ReuseAddr(_) | SocketOption::ReusePort(_) => SockLevel::Socket,
            SocketOption::TcpNoDelay(_) => SockLevel::Tcp,
            SocketOption::IpAddMembership(_) | SocketOption::IpDropMembership(_) | SocketOption::IpMulticastTtl(_) => SockLevel::Ip,
        }
    }
}

/// Whether a duration in seconds can be written to the native field, which
/// counts seconds in a signed 32-bit integer.
pub open spec fn linger_fits_spec(dur_s: usize) -> bool {
    dur_s <= i32::MAX
}

/// Whether a duration in seconds can be asked for. One that cannot has no
/// request: it is to be refused before anything is asked of the operating
/// system.
pub fn linger_fits(dur_s: usize) -> (r: bool)
    ensures
        r == linger_fits_spec(dur_s),
{
    dur_s <= i32::MAX as usize
}

/// The linger setting for a duration in seconds: off for zero, on for
/// anything else, with the duration as the seconds.
pub open spec fn linger_request_spec(dur_s: usize) -> Linger {
    Linger { onoff: if dur_s > 0 { 1i32 } else { 0i32 }, seconds: dur_s as i32 }
}

/// The linger setting to hand to the operating system for a duration in
/// seconds. A duration that the native field cannot hold is not accepted.
pub fn linger_request(dur_s: usize) -> (r: Linger)
    requires
        linger_fits_spec(dur_s),
    ensures
        r == linger_request_spec(dur_s),
        r.seconds == dur_s,
        r.onoff == 0 <==> dur_s == 0,
{
    let onoff: i32 = if dur_s > 0 { 1 } else { 0 };
    Linger { onoff, seconds: dur_s as i32 }
}

/// What a linger setting read from the operating system amounts to: the
/// number of seconds for which closing waits, where the switch is on and that
/// number is positive, and zero where lingering is off.
pub open spec fn linger_value(linger: Linger) -> usize {
    if linger.onoff != 0 && linger.seconds > 0 {
        linger.seconds as usize
    } else {
        0
    }
}

/// What `linger_read` makes of the outcome of reading the linger option.
pub open spec fn linger_read_spec(outcome: Result<Linger, OsError>) -> Result<usize, Error> {
    match outcome {
        Ok(linger) => Ok(linger_value(linger)),
        Err(failure) => Err(Error::Syscall(failure)),
    }
}

/// Reads the outcome of asking the operating system for the linger option:
/// the duration in seconds, zero where lingering is off, or the failure.
pub fn linger_read(outcome: Result<Linger, OsError>) -> (r: Result<usize, Error>)
    ensures
        r == linger_read_spec(outcome),
{
    match outcome {
        Ok(linger) => if linger.onoff != 0 && linger.seconds > 0 {
            Ok(linger.seconds as usize)
        } else {
            Ok(0)
        },
        Err(failure) => Err(Error::Syscall(failure)),
    }
}

/// What is asked to be written for a duration reads back as that duration.
pub proof fn lemma_linger_round_trip(dur_s: usize)
    requires
        linger_fits_spec(dur_s),
    ensures
        linger_value(linger_request_spec(dur_s)) == dur_s,
        linger_read_spec(Ok(linger_request_spec(dur_s))) == Ok::<usize, Error>(dur_s),
{
}

/// The membership that a group address and an optional interface address ask
/// for. Groups are IPv4 only, and an interface must be of the group's family.
pub open spec fn membership_spec(addr: IpAddress, interface: Option<IpAddress>) -> Result<Membership, Error> {
    match addr {
        IpAddress::V4(group) => match interface {
            None => Ok(Membership { group, interface: None }),
            Some(IpAddress::V4(through)) => Ok(Membership { group, interface: Some(through) }),
            Some(IpAddress::V6(_)) => Err(Error::UnsupportedAddressFamily),
        },
        IpAddress::V6(_) => Err(Error::UnsupportedAddressFamily),
    }
}

/// An optional reference as the optional value behind it.
pub open spec fn deref_option(interface: Option<&IpAddress>) -> Option<IpAddress> {
    match interface {
        Some(addr) => Some(*addr),
        None => None,
    }
}

/// Checks the address families of a multicast request and builds the
/// membership to hand to the operating system.
pub fn membership(addr: &IpAddress, interface: Option<&IpAddress>) -> (r: Result<Membership, Error>)
    ensures
        r == membership_spec(*addr, deref_option(interface)),
        r is Ok <==> *addr is V4 && (interface matches Some(through) ==> *through is V4),
        r is Err ==> r == Err::<Membership, Error>(Error::UnsupportedAddressFamily),
{
    match addr {
        IpAddress::V4(group) => {
            let through = match interface {
                Some(IpAddress::V4(through)) => Some(*through),
                Some(IpAddress::V6(_)) => {
                    return Err(Error::UnsupportedAddressFamily);
                },
                None => None,
            };
            Ok(Membership { group: *group, interface: through })
        },
        IpAddress::V6(_) => Err(Error::UnsupportedAddressFamily),
    }
}

} // verus!
