//! The non-blocking socket contract that the reactor rests on: how a
//! descriptor is asked for, which options can be set on it, and how the
//! outcome of a connection attempt or of a datagram transfer is read.

pub mod addr;
pub mod option;

use vstd::prelude::*;
use crate::error::{Cause, Error, OsError};
use crate::io::{nonblock, nonblock_spec, NonBlock};
use crate::net::addr::{IpAddress, SockAddr};
use crate::net::option::{deref_option, linger_fits_spec, linger_read, linger_read_spec, linger_request, linger_request_spec, membership, membership_spec};
use crate::net::option::{Linger, SetOption, SocketOption};

verus! {

/// A resource that is backed by one descriptor of the operating system.
pub trait IoHandle {
    /// The number of the descriptor.
    spec fn descriptor(&self) -> i32;

    /// The number of the descriptor.
    fn fd(&self) -> (r: i32)
        ensures
            r == self.descriptor(),
    ;
}

/// The number of a descriptor, for callers that keep nothing else about it.
/// It names the descriptor and does not own it: whoever opened the
/// descriptor closes it, once, after taking it out of every selector.
#[derive(Debug, PartialEq, Eq)]
pub struct Descriptor {
    fd: i32,
}

impl Descriptor {
    /// The handle for descriptor number `fd`.
    pub fn new(fd: i32) -> (r: Descriptor)
        ensures
            r.descriptor() == fd,
    {
        Descriptor { fd }
    }
}

impl IoHandle for Descriptor {
    closed spec fn descriptor(&self) -> i32 {
        self.fd
    }

    fn fd(&self) -> (r: i32) {
        self.fd
    }
}

/// The family of addresses that a socket speaks.
#[derive(Clone, Copy, Debug, PartialEq, Eq, Structural)]
pub enum AddressFamily {
    Inet,
    Inet6,
    Unix,
}

/// Whether a socket carries a stream of bytes or single datagrams.
#[derive(Clone, Copy, Debug, PartialEq, Eq, Structural)]
pub enum SockType {
    Stream,
    Datagram,
}

/// The flags that a descriptor is given at the moment it comes into being.
#[derive(Clone, Copy, Debug, PartialEq, Eq, Structural)]
pub struct SockFlags {
    /// No operation on the descriptor ever waits.
    pub nonblocking: bool,
    /// The descriptor is not handed on to a program that this one starts.
    pub close_on_exec: bool,
}

/// What to ask of the operating system to get a new socket.
#[derive(Clone, Copy, Debug, PartialEq, Eq, Structural)]
pub struct SocketRequest {
    pub family: AddressFamily,
    pub ty: SockType,
    pub flags: SockFlags,
}

/// What to ask of the operating system to take a connection off a listening
/// socket.
#[derive(Clone, Copy, Debug, PartialEq, Eq, Structural)]
pub struct AcceptRequest {
    pub descriptor: i32,
    pub flags: SockFlags,
}

/// The flags of every descriptor that this crate asks for: non-blocking and
/// close-on-exec, both.
pub open spec fn creation_flags() -> SockFlags {
    SockFlags { nonblocking: true, close_on_exec: true }
}

/// The request for a new socket. Both flags are part of the request itself, so
/// that the descriptor never exists without them.
pub fn socket(family: AddressFamily, ty: SockType) -> (r: SocketRequest)
    ensures
        r == (SocketRequest { family, ty, flags: creation_flags() }),
{
    SocketRequest { family, ty, flags: SockFlags { nonblocking: true, close_on_exec: true } }
}

/// The request for the next connection of a listening socket. The new
/// descriptor gets both flags in the same call that makes it.
pub fn accept<H: IoHandle>(io: &H) -> (r: AcceptRequest)
    ensures
        r == (AcceptRequest { descriptor: io.descriptor(), flags: creation_flags() }),
{
    AcceptRequest { descriptor: io.fd(), flags: SockFlags { nonblocking: true, close_on_exec: true } }
}

/// What to ask of the operating system to make a bound socket listen.
#[derive(Clone, Copy, Debug, PartialEq, Eq, Structural)]
pub struct ListenRequest {
    pub descriptor: i32,
    pub backlog: i32,
}

/// The request to listen on a socket with room for `backlog` connections that
/// wait to be accepted. The native call counts them in 32 bits; a larger
/// number asks for as many as that can say.
pub fn listen<H: IoHandle>(io: &H, backlog: usize) -> (r: ListenRequest)
    ensures
        r.descriptor == io.descriptor(),
        r.backlog == if backlog <= i32::MAX { backlog as int } else { i32::MAX as int },
{
    let backlog: i32 = if backlog <= i32::MAX as usize {
        backlog as i32
    } else {
        i32::MAX
    };
    ListenRequest { descriptor: io.fd(), backlog }
}

/// What `connect` makes of the outcome of a connection attempt.
pub open spec fn connect_spec(outcome: Result<(), OsError>) -> Result<bool, Error> {
    match outcome {
        Ok(_) => Ok(true),
        Err(failure) => if failure.cause == Cause::InProgress {
            Ok(false)
        } else {
            Err(Error::Syscall(failure))
        },
    }
}

/// Reads the outcome of a non-blocking connection attempt: `true` where the
/// connection stands, `false` where the operating system has begun to set it
/// up, in which case the descriptor turns writable when that is done. Any
/// other failure is handed on.
pub fn connect(outcome: Result<(), OsError>) -> (r: Result<bool, Error>)
    ensures
        r == connect_spec(outcome),
{
    match outcome {
        Ok(_) => Ok(true),
        Err(failure) => match failure.cause {
            Cause::InProgress => Ok(false),
            _ => Err(Error::from_os(failure)),
        },
    }
}

/// The options of any socket.
pub trait Socket: IoHandle {
    /// Reads the outcome of asking for the linger option: the number of
    /// seconds for which closing waits, zero where lingering is off.
    fn linger(&self, outcome: Result<Linger, OsError>) -> (r: Result<usize, Error>)
        ensures
            r == linger_read_spec(outcome),
    {
        linger_read(outcome)
    }

    /// The request to linger for `dur_s` seconds on close, or not at all where
    /// `dur_s` is zero. A duration that the native field cannot hold is not
    /// accepted: test it with `linger_fits`.
    fn set_linger(&self, dur_s: usize) -> (r: SetOption)
        requires
            linger_fits_spec(dur_s),
        ensures
            r == (SetOption {
                descriptor: self.descriptor(),
                option: SocketOption::Linger(linger_request_spec(dur_s)),
            }),
    {
        SetOption { descriptor: self.fd(), option: SocketOption::Linger(linger_request(dur_s)) }
    }

    /// The request to allow or forbid binding to an address that is in use.
    fn set_reuseaddr(&self, val: bool) -> (r: SetOption)
        ensures
            r == (SetOption { descriptor: self.descriptor(), option: SocketOption::ReuseAddr(val) }),
    {
        SetOption { descriptor: self.fd(), option: SocketOption::ReuseAddr(val) }
    }

    /// The request to allow or forbid binding to a port that is in use.
    fn set_reuseport(&self, val: bool) -> (r: SetOption)
        ensures
            r == (SetOption { descriptor: self.descriptor(), option: SocketOption::ReusePort(val) }),
    {
        SetOption { descriptor: self.fd(), option: SocketOption::ReusePort(val) }
    }

    /// The request to send small segments at once, or to let them gather.
    fn set_tcp_nodelay(&self, val: bool) -> (r: SetOption)
        ensures
            r == (SetOption { descriptor: self.descriptor(), option: SocketOption::TcpNoDelay(val) }),
    {
        SetOption { descriptor: self.fd(), option: SocketOption::TcpNoDelay(val) }
    }
}

/// What `join_multicast_group` returns for a descriptor, a group and an
/// interface.
pub open spec fn join_spec(descriptor: i32, addr: IpAddress, interface: Option<IpAddress>) -> Result<
    SetOption,
    Error,
> {
    match membership_spec(addr, interface) {
        Ok(request) => Ok(SetOption { descriptor, option: SocketOption::IpAddMembership(request) }),
        Err(error) => Err(error),
    }
}

/// What `leave_multicast_group` returns for a descriptor, a group and an
/// interface.
pub open spec fn leave_spec(descriptor: i32, addr: IpAddress, interface: Option<IpAddress>) -> Result<
    SetOption,
    Error,
> {
    match membership_spec(addr, interface) {
        Ok(request) => Ok(SetOption { descriptor, option: SocketOption::IpDropMembership(request) }),
        Err(error) => Err(error),
    }
}

/// The options of a socket that can take part in multicast.
pub trait MulticastSocket: Socket {
    /// The request to join the group `addr`, on `interface` where one is
    /// given. Only IPv4 groups can be joined, and only through an IPv4
    /// interface: anything else is `UnsupportedAddressFamily`, and nothing is
    /// to be asked of the operating system.
    fn join_multicast_group(&self, addr: &IpAddress, interface: Option<&IpAddress>) -> (r: Result<
        SetOption,
        Error,
    >)
        ensures
            r == join_spec(self.descriptor(), *addr, deref_option(interface)),
            r is Ok <==> *addr is V4 && (interface matches Some(through) ==> *through is V4),
    {
        match membership(addr, interface) {
            Ok(request) => Ok(SetOption { descriptor: self.fd(), option: SocketOption::IpAddMembership(request) }),
            Err(error) => Err(error),
        }
    }

    /// The request to leave the group `addr`, under the same rules as joining
    /// it.
    fn leave_multicast_group(&self, addr: &IpAddress, interface: Option<&IpAddress>) -> (r: Result<
        SetOption,
        Error,
    >)
        ensures
            r == leave_spec(self.descriptor(), *addr, deref_option(interface)),
            r is Ok <==> *addr is V4 && (interface matches Some(through) ==> *through is V4),
    {
        match membership(addr, interface) {
            Ok(request) => Ok(SetOption { descriptor: self.fd(), option: SocketOption::IpDropMembership(request) }),
            Err(error) => Err(error),
        }
    }

    /// The request to let multicast datagrams travel `val` hops.
    fn set_multicast_ttl(&self, val: u8) -> (r: SetOption)
        ensures
            r == (SetOption { descriptor: self.descriptor(), option: SocketOption::IpMulticastTtl(val) }),
    {
        SetOption { descriptor: self.fd(), option: SocketOption::IpMulticastTtl(val) }
    }
}

/// Datagram transfer on a socket that is not connected.
pub trait UnconnectedSocket {
    /// Reads the outcome of sending one datagram: the number of bytes that
    /// left, `WouldBlock` where the operating system had no room for them, or
    /// the error.
    fn send_to(&mut self, outcome: Result<usize, OsError>) -> (r: Result<NonBlock<usize>, Error>)
        ensures
            r == nonblock_spec(outcome),
    {
        nonblock(outcome)
    }

    /// Reads the outcome of receiving one datagram: the number of bytes that
    /// came with the sender's address, `WouldBlock` where none was waiting, or
    /// the error.
    fn recv_from(&mut self, outcome: Result<(usize, SockAddr), OsError>) -> (r: Result<
        NonBlock<(usize, SockAddr)>,
        Error,
    >)
        ensures
            r == nonblock_spec(outcome),
    {
        nonblock(outcome)
    }
}

impl Socket for Descriptor {

}

impl MulticastSocket for Descriptor {

}

impl UnconnectedSocket for Descriptor {

}

/// Leaving a group is asked for on exactly the inputs on which joining it is,
/// and names the same membership: what was joined can be left.
pub proof fn lemma_join_is_reversible(descriptor: i32, addr: IpAddress, interface: Option<IpAddress>)
    ensures
        join_spec(descriptor, addr, interface) is Ok <==> leave_spec(descriptor, addr, interface) is Ok,
        join_spec(descriptor, addr, interface) matches Ok(joined) ==> leave_spec(descriptor, addr, interface)
            == Ok::<SetOption, Error>(
            SetOption {
                descriptor,
                option: SocketOption::IpDropMembership(joined.option->IpAddMembership_0),
            },
        ),
        addr is V6 ==> join_spec(descriptor, addr, interface) == Err::<SetOption, Error>(
            Error::UnsupportedAddressFamily,
        ),
{
}

} // verus!
