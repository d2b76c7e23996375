use reactor::error::{completed, Cause, Error, OsError};
use reactor::io::{nonblock, NonBlock};
use reactor::net::addr::{InetAddress, IpAddress, SockAddr};
use reactor::net::option::{linger_fits, linger_read, linger_request, membership, Linger, Membership, SetOption, SockLevel, SocketOption};
use reactor::net::{accept, connect, listen, socket, AddressFamily, Descriptor, SockFlags, SockType};
use reactor::{IoHandle, MulticastSocket, Socket, UnconnectedSocket};

const GROUP: u32 = 0xE000_0001;

fn interrupted() -> OsError {
    OsError::new(Cause::Interrupted, 4)
}

fn would_block() -> OsError {
    OsError::new(Cause::WouldBlock, 11)
}

fn in_progress() -> OsError {
    OsError::new(Cause::InProgress, 115)
}

fn refused(code: i32) -> OsError {
    OsError::other(code)
}

const INTERFACE: u32 = 0xC0A8_0001;

#[test]
fn connect_that_completed_is_true() {
    assert_eq!(connect(Ok(())), Ok(true));
}

#[test]
fn connect_in_progress_is_false_and_no_error() {
    assert_eq!(connect(Err(in_progress())), Ok(false));
    assert_eq!(connect(Err(OsError::new(Cause::InProgress, 150))), Ok(false));
}

#[test]
fn connect_hands_on_any_other_error() {
    assert_eq!(connect(Err(refused(111))), Err(Error::Syscall(refused(111))));
    assert_eq!(connect(Err(refused(115))), Err(Error::Syscall(refused(115))));
    assert_eq!(connect(Err(would_block())), Err(Error::Syscall(would_block())));
    assert_eq!(connect(Err(interrupted())), Err(Error::Syscall(interrupted())));
}

#[test]
fn would_block_is_a_result_not_an_error() {
    assert_eq!(nonblock::<usize>(Err(would_block())), Ok(NonBlock::WouldBlock));
    assert_eq!(nonblock::<usize>(Err(OsError::new(Cause::WouldBlock, 35))), Ok(NonBlock::WouldBlock));
    assert_eq!(nonblock(Ok(17usize)), Ok(NonBlock::Ready(17)));
    assert_eq!(nonblock::<usize>(Err(refused(32))), Err(Error::Syscall(refused(32))));
    assert_eq!(nonblock::<usize>(Err(refused(11))), Err(Error::Syscall(refused(11))));
    assert_eq!(nonblock::<usize>(Err(in_progress())), Err(Error::Syscall(in_progress())));
    assert_eq!(nonblock::<usize>(Err(interrupted())), Err(Error::Syscall(interrupted())));
}

#[test]
fn non_block_tells_its_two_cases_apart() {
    let ready = NonBlock::Ready(5u8);
    assert!(ready.is_ready());
    assert!(!ready.would_block());
    assert_eq!(ready.unwrap(), 5);
    let waiting: NonBlock<u8> = NonBlock::WouldBlock;
    assert!(waiting.would_block());
    assert!(!waiting.is_ready());
    assert_eq!(waiting.ready(), None);
    assert_eq!(NonBlock::Ready(9u8).ready(), Some(9));
}

#[test]
fn completed_wraps_the_error_number() {
    assert_eq!(completed(Ok(3i32)), Ok(3));
    assert_eq!(completed::<()>(Err(refused(13))), Err(Error::Syscall(refused(13))));
    assert_eq!(completed::<()>(Err(would_block())), Err(Error::Syscall(would_block())));
    assert_eq!(completed::<()>(Err(in_progress())), Err(Error::Syscall(in_progress())));
}

#[test]
fn error_keeps_the_error_number() {
    assert_eq!(Error::from_os(refused(98)), Error::Syscall(OsError { cause: Cause::Other, code: 98 }));
    assert_eq!(Error::from_os(refused(98)).errno(), Some(98));
    assert_eq!(Error::from_os(would_block()).errno(), Some(11));
    assert_eq!(Error::InvalidRegistration.errno(), None);
    assert_eq!(Error::UnsupportedAddressFamily.errno(), None);
    assert!(Error::Syscall(would_block()).is_would_block());
    assert!(!Error::Syscall(interrupted()).is_would_block());
    assert!(!Error::Syscall(refused(11)).is_would_block());
    assert!(!Error::InvalidRegistration.is_would_block());
}

#[test]
fn descriptors_are_asked_for_with_both_flags() {
    let request = socket(AddressFamily::Inet, SockType::Stream);
    assert_eq!(request.family, AddressFamily::Inet);
    assert_eq!(request.ty, SockType::Stream);
    assert_eq!(request.flags, SockFlags { nonblocking: true, close_on_exec: true });
    let request = socket(AddressFamily::Unix, SockType::Datagram);
    assert!(request.flags.nonblocking && request.flags.close_on_exec);
}

#[test]
fn accepted_descriptors_are_asked_for_with_both_flags() {
    let listener = Descriptor::new(4);
    let request = accept(&listener);
    assert_eq!(request.descriptor, 4);
    assert_eq!(request.flags, SockFlags { nonblocking: true, close_on_exec: true });
}

#[test]
fn listen_cuts_the_backlog_to_the_native_width() {
    let listener = Descriptor::new(4);
    assert_eq!(listen(&listener, 0).backlog, 0);
    assert_eq!(listen(&listener, 128).backlog, 128);
    assert_eq!(listen(&listener, 128).descriptor, 4);
    assert_eq!(listen(&listener, i32::MAX as usize).backlog, i32::MAX);
    assert_eq!(listen(&listener, usize::MAX).backlog, i32::MAX);
}

#[test]
fn set_linger_zero_switches_lingering_off() {
    let socket = Descriptor::new(7);
    let request = socket.set_linger(0);
    assert_eq!(request, SetOption { descriptor: 7, option: SocketOption::Linger(Linger { onoff: 0, seconds: 0 }) });
}

#[test]
fn set_linger_carries_the_duration() {
    let socket = Descriptor::new(7);
    let request = socket.set_linger(30);
    assert_eq!(request.option, SocketOption::Linger(Linger { onoff: 1, seconds: 30 }));
    assert_eq!(linger_request(1), Linger { onoff: 1, seconds: 1 });
    assert_eq!(linger_request(i32::MAX as usize), Linger { onoff: 1, seconds: i32::MAX });
}

#[test]
fn linger_fits_up_to_the_width_of_the_native_field() {
    assert!(linger_fits(0));
    assert!(linger_fits(30));
    assert!(linger_fits(i32::MAX as usize));
    assert!(!linger_fits(i32::MAX as usize + 1));
    assert!(!linger_fits(0xffff_ffff));
    assert!(!linger_fits(usize::MAX));
}

#[test]
fn linger_reads_the_duration() {
    let socket = Descriptor::new(7);
    assert_eq!(socket.linger(Ok(Linger { onoff: 1, seconds: 30 })), Ok(30));
    assert_eq!(socket.linger(Ok(Linger { onoff: 1, seconds: 1 })), Ok(1));
    assert_eq!(socket.linger(Ok(Linger { onoff: 5, seconds: 12 })), Ok(12));
    assert_eq!(socket.linger(Ok(Linger { onoff: 1, seconds: i32::MAX })), Ok(i32::MAX as usize));
    assert_eq!(socket.linger(Err(refused(9))), Err(Error::Syscall(refused(9))));
}

#[test]
fn linger_is_zero_where_lingering_is_off() {
    let socket = Descriptor::new(7);
    assert_eq!(socket.linger(Ok(Linger { onoff: 0, seconds: 30 })), Ok(0));
    assert_eq!(socket.linger(Ok(Linger { onoff: 0, seconds: 0 })), Ok(0));
    assert_eq!(socket.linger(Ok(Linger { onoff: 1, seconds: 0 })), Ok(0));
    assert_eq!(socket.linger(Ok(Linger { onoff: 1, seconds: -4 })), Ok(0));
    assert_eq!(linger_read(Ok(Linger { onoff: 0, seconds: 7 })), Ok(0));
}

#[test]
fn linger_reads_back_what_set_linger_asks_for() {
    let socket = Descriptor::new(7);
    for duration in [0usize, 1, 2, 30, 86_400, i32::MAX as usize] {
        assert!(linger_fits(duration));
        let request = socket.set_linger(duration);
        let written = match request.option {
            SocketOption::Linger(written) => written,
            other => panic!("not a linger request: {:?}", other),
        };
        assert_eq!(socket.linger(Ok(written)), Ok(duration));
    }
}

#[test]
fn switches_name_their_option_and_descriptor() {
    let socket = Descriptor::new(11);
    assert_eq!(socket.fd(), 11);
    assert_eq!(socket.set_reuseaddr(true), SetOption { descriptor: 11, option: SocketOption::ReuseAddr(true) });
    assert_eq!(socket.set_reuseport(false), SetOption { descriptor: 11, option: SocketOption::ReusePort(false) });
    assert_eq!(socket.set_tcp_nodelay(true), SetOption { descriptor: 11, option: SocketOption::TcpNoDelay(true) });
    assert_eq!(socket.set_multicast_ttl(3), SetOption { descriptor: 11, option: SocketOption::IpMulticastTtl(3) });
}

#[test]
fn options_know_their_level() {
    assert_eq!(SocketOption::Linger(Linger { onoff: 0, seconds: 0 }).level(), SockLevel::Socket);
    assert_eq!(SocketOption::ReuseAddr(true).level(), SockLevel::Socket);
    assert_eq!(SocketOption::ReusePort(true).level(), SockLevel::Socket);
    assert_eq!(SocketOption::TcpNoDelay(true).level(), SockLevel::Tcp);
    let request = Membership { group: GROUP, interface: None };
    assert_eq!(SocketOption::IpAddMembership(request).level(), SockLevel::Ip);
    assert_eq!(SocketOption::IpDropMembership(request).level(), SockLevel::Ip);
    assert_eq!(SocketOption::IpMulticastTtl(1).level(), SockLevel::Ip);
}

#[test]
fn join_multicast_group_refuses_an_ipv6_group() {
    let socket = Descriptor::new(5);
    let group = IpAddress::V6(0xff02_0000_0000_0000_0000_0000_0000_0001);
    assert_eq!(socket.join_multicast_group(&group, None), Err(Error::UnsupportedAddressFamily));
    let interface = IpAddress::V4(INTERFACE);
    assert_eq!(socket.join_multicast_group(&group, Some(&interface)), Err(Error::UnsupportedAddressFamily));
    assert_eq!(socket.leave_multicast_group(&group, None), Err(Error::UnsupportedAddressFamily));
}

#[test]
fn join_multicast_group_refuses_an_interface_of_another_family() {
    let socket = Descriptor::new(5);
    let group = IpAddress::V4(GROUP);
    let interface = IpAddress::V6(1);
    assert_eq!(socket.join_multicast_group(&group, Some(&interface)), Err(Error::UnsupportedAddressFamily));
    assert_eq!(socket.leave_multicast_group(&group, Some(&interface)), Err(Error::UnsupportedAddressFamily));
    assert_eq!(membership(&group, Some(&interface)), Err(Error::UnsupportedAddressFamily));
}

#[test]
fn join_multicast_group_is_undone_by_leave() {
    let socket = Descriptor::new(5);
    let group = IpAddress::V4(GROUP);
    let interface = IpAddress::V4(INTERFACE);
    let request = Membership { group: GROUP, interface: Some(INTERFACE) };
    assert_eq!(
        socket.join_multicast_group(&group, Some(&interface)),
        Ok(SetOption { descriptor: 5, option: SocketOption::IpAddMembership(request) })
    );
    assert_eq!(
        socket.leave_multicast_group(&group, Some(&interface)),
        Ok(SetOption { descriptor: 5, option: SocketOption::IpDropMembership(request) })
    );
}

#[test]
fn join_multicast_group_without_interface() {
    let socket = Descriptor::new(5);
    let group = IpAddress::V4(GROUP);
    let request = Membership { group: GROUP, interface: None };
    assert_eq!(
        socket.join_multicast_group(&group, None),
        Ok(SetOption { descriptor: 5, option: SocketOption::IpAddMembership(request) })
    );
    assert_eq!(
        socket.leave_multicast_group(&group, None),
        Ok(SetOption { descriptor: 5, option: SocketOption::IpDropMembership(request) })
    );
    assert_eq!(membership(&group, None), Ok(request));
}

#[test]
fn datagram_transfer_reads_would_block() {
    let mut socket = Descriptor::new(6);
    assert_eq!(socket.send_to(Ok(512)), Ok(NonBlock::Ready(512)));
    assert_eq!(socket.send_to(Err(would_block())), Ok(NonBlock::WouldBlock));
    assert_eq!(socket.send_to(Err(refused(90))), Err(Error::Syscall(refused(90))));
    let from = SockAddr::Inet(InetAddress { ip: IpAddress::V4(0x7f00_0001), port: 4000 });
    assert_eq!(socket.recv_from(Ok((64, from))), Ok(NonBlock::Ready((64, from))));
    assert_eq!(socket.recv_from(Err(would_block())), Ok(NonBlock::WouldBlock));
    assert_eq!(socket.recv_from(Err(refused(9))), Err(Error::Syscall(refused(9))));
}

#[test]
fn socket_addresses_wrap_internet_addresses() {
    let addr = InetAddress { ip: IpAddress::V4(0x7f00_0001), port: 8080 };
    let wrapped = SockAddr::from_inet(&addr);
    assert_eq!(wrapped, SockAddr::Inet(addr));
    assert_eq!(wrapped.to_inet(), addr);
    assert!(addr.ip.is_ipv4());
    assert!(!IpAddress::V6(1).is_ipv4());
}
