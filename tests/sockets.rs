use wasio::errno::{from_tokio_error, Errno, HostErrorKind};
use wasio::executor::{AcceptedConnection, CancellationToken, ExecutorState};
use wasio::fd_table::{FdEntry, FdTable, Resource, ALL_RIGHTS, RIGHT_SOCK_BIND};
use wasio::memory::GuestMemory;
use wasio::sockaddr::{decode_socket_addr, encode_socket_addr, SockAddr, AF_INET, AF_INET6};
use wasio::socket::{SockOption, SocketState, TcpSocket, SOCK_DGRAM, SOCK_STREAM};
use wasio::syscalls::{
    sock_accept, sock_addr, sock_bind, sock_connect_begin, sock_connect_finish, sock_get_opt_flag,
    sock_listen_begin, sock_listen_finish, sock_open, sock_set_opt_flag, sock_set_opt_time,
};

fn v4(a: u8, b: u8, c: u8, d: u8, port: u16) -> SockAddr {
    SockAddr::V4 { ip: [a, b, c, d], port }
}

fn open_socket(mem: &mut GuestMemory, fds: &mut FdTable, domain: u16) -> u32 {
    assert_eq!(sock_open(mem, fds, domain, SOCK_STREAM, 0), Errno::Success);
    mem.read_u32(0).unwrap()
}

fn socket_state(fds: &FdTable, fd: u32) -> SocketState {
    match &fds.get(fd).unwrap().resource {
        Resource::Socket { socket } => socket.state(),
        _ => panic!("not a socket"),
    }
}

#[test]
fn listen_connect_accept_scenario() {
    let mut mem = GuestMemory::new(256);
    let mut fds = FdTable::new();
    let mut exec = ExecutorState::new();

    let server = open_socket(&mut mem, &mut fds, AF_INET);
    assert_eq!(socket_state(&fds, server), SocketState::Unbound { v6: false });
    assert_eq!(encode_socket_addr(&mut mem, 16, 16, v4(0, 0, 0, 0, 0)), Ok(16));
    assert_eq!(sock_bind(&mem, &mut fds, server, 16, 16), Errno::Success);
    assert_eq!(socket_state(&fds, server), SocketState::Bound { local: v4(0, 0, 0, 0, 0) });

    assert_eq!(sock_listen_begin(&fds, server), Ok(v4(0, 0, 0, 0, 0)));
    let listening = v4(127, 0, 0, 1, 40000);
    assert_eq!(sock_listen_finish(&mut fds, server, Ok(listening), 1), Errno::Success);
    assert_eq!(socket_state(&fds, server), SocketState::Listening { local: listening, backlog: 1 });

    let client = open_socket(&mut mem, &mut fds, AF_INET);
    assert_ne!(client, server);
    assert_eq!(encode_socket_addr(&mut mem, 48, 16, listening), Ok(16));
    let target = sock_connect_begin(&mem, &fds, client, 48, 16).unwrap();
    assert_eq!(target, listening);
    let client_local = v4(127, 0, 0, 1, 50000);
    assert_eq!(sock_connect_finish(&mut fds, client, Ok((client_local, target))), Errno::Success);
    assert_eq!(
        socket_state(&fds, client),
        SocketState::Connected { local: client_local, remote: listening }
    );

    let conn = AcceptedConnection { conn_id: 7, local: listening, remote: client_local };
    assert!(exec.offer_accepted(conn).is_ok());
    let (accepted, got) = sock_accept(&mut mem, &mut fds, &mut exec, server, 8, 64, 16).unwrap();
    assert_eq!(got, conn);
    assert_eq!(mem.read_u32(8).unwrap(), accepted);
    match socket_state(&fds, accepted) {
        SocketState::Connected { local, remote } => {
            assert_eq!(remote, client_local);
            assert_eq!(local, listening);
        }
        other => panic!("unexpected state {:?}", other),
    }
    assert_eq!(decode_socket_addr(&mem, 64, 16), Ok(client_local));
    // the listener itself is untouched
    assert_eq!(socket_state(&fds, server), SocketState::Listening { local: listening, backlog: 1 });
}

#[test]
fn accept_without_pending_connection_would_block() {
    let mut mem = GuestMemory::new(128);
    let mut fds = FdTable::new();
    let mut exec = ExecutorState::new();
    let server = open_socket(&mut mem, &mut fds, AF_INET);
    encode_socket_addr(&mut mem, 16, 16, v4(0, 0, 0, 0, 8080)).unwrap();
    assert_eq!(sock_bind(&mem, &mut fds, server, 16, 16), Errno::Success);
    assert_eq!(sock_listen_finish(&mut fds, server, Ok(v4(0, 0, 0, 0, 8080)), 4), Errno::Success);
    let before = mem.read_bytes(0, 128).unwrap();
    assert_eq!(sock_accept(&mut mem, &mut fds, &mut exec, server, 8, 64, 16), Err(Errno::Again));
    assert_eq!(mem.read_bytes(0, 128).unwrap(), before);
    assert!(fds.get(server + 1).is_none());
}

#[test]
fn accept_handoff_holds_one_connection() {
    let mut exec = ExecutorState::new();
    let a = AcceptedConnection { conn_id: 1, local: v4(10, 0, 0, 1, 80), remote: v4(10, 0, 0, 2, 1000) };
    let b = AcceptedConnection { conn_id: 2, local: v4(10, 0, 0, 1, 80), remote: v4(10, 0, 0, 3, 1001) };
    assert_eq!(exec.offer_accepted(a), Ok(()));
    assert_eq!(exec.offer_accepted(b), Err(b));
    assert_eq!(exec.poll_accepted(), Ok(a));
    assert_eq!(exec.poll_accepted(), Err(Errno::Again));
    assert_eq!(exec.offer_accepted(b), Ok(()));
    assert_eq!(exec.poll_accepted(), Ok(b));
}

#[test]
fn accept_on_socket_not_listening_is_invalid() {
    let mut mem = GuestMemory::new(128);
    let mut fds = FdTable::new();
    let mut exec = ExecutorState::new();
    let s = open_socket(&mut mem, &mut fds, AF_INET);
    let conn = AcceptedConnection { conn_id: 3, local: v4(1, 1, 1, 1, 1), remote: v4(2, 2, 2, 2, 2) };
    exec.offer_accepted(conn).unwrap();
    assert_eq!(sock_accept(&mut mem, &mut fds, &mut exec, s, 8, 64, 16), Err(Errno::Inval));
    // the queued connection is still there
    assert_eq!(exec.poll_accepted(), Ok(conn));
}

#[test]
fn transitions_outside_the_lifecycle_fail_and_change_nothing() {
    let mut s = TcpSocket::create(AF_INET, SOCK_STREAM).unwrap();
    assert_eq!(s.listen_address(), Err(Errno::Inval));
    assert_eq!(s.listen(v4(1, 2, 3, 4, 5), 1), Err(Errno::Inval));
    assert_eq!(s.state(), SocketState::Unbound { v6: false });
    assert_eq!(s.bind(v4(1, 2, 3, 4, 5)), Ok(()));
    assert_eq!(s.bind(v4(1, 2, 3, 4, 6)), Err(Errno::Inval));
    assert_eq!(s.state(), SocketState::Bound { local: v4(1, 2, 3, 4, 5) });
    assert_eq!(s.listen(v4(1, 2, 3, 4, 5), 3), Ok(()));
    assert_eq!(s.connect(v4(1, 2, 3, 4, 5), v4(5, 6, 7, 8, 9)), Err(Errno::Inval));
    assert_eq!(s.check_connect(v4(5, 6, 7, 8, 9)), Err(Errno::Inval));
    assert_eq!(s.state(), SocketState::Listening { local: v4(1, 2, 3, 4, 5), backlog: 3 });
    assert_eq!(s.check_stream(), Err(Errno::Inval));
    assert_eq!(s.check_accept(), Ok(()));
}

#[test]
fn unbound_socket_connects_directly() {
    let mut s = TcpSocket::create(AF_INET, SOCK_STREAM).unwrap();
    assert_eq!(s.check_connect(v4(9, 9, 9, 9, 99)), Ok(()));
    assert_eq!(s.connect(v4(1, 1, 1, 1, 1), v4(9, 9, 9, 9, 99)), Ok(()));
    assert_eq!(s.check_stream(), Ok(()));
    assert_eq!(s.remote_address(), Ok(v4(9, 9, 9, 9, 99)));
    assert_eq!(s.local_address(), Ok(v4(1, 1, 1, 1, 1)));
    assert_eq!(s.bind(v4(1, 1, 1, 1, 2)), Err(Errno::Inval));
}

#[test]
fn family_is_fixed_at_creation() {
    let mut s = TcpSocket::create(AF_INET6, SOCK_STREAM).unwrap();
    assert!(s.is_v6());
    assert_eq!(s.bind(v4(1, 2, 3, 4, 5)), Err(Errno::Inval));
    assert_eq!(s.check_connect(v4(1, 2, 3, 4, 5)), Err(Errno::Inval));
    let a = SockAddr::V6 { ip: [0; 16], port: 80, flowinfo: 0, scope_id: 0 };
    assert_eq!(s.bind(a), Ok(()));
}

#[test]
fn only_stream_sockets_can_be_created() {
    assert_eq!(TcpSocket::create(AF_INET, SOCK_DGRAM).err(), Some(Errno::Inval));
    assert_eq!(TcpSocket::create(77, SOCK_STREAM).err(), Some(Errno::Inval));
    let mut mem = GuestMemory::new(16);
    let mut fds = FdTable::new();
    assert_eq!(sock_open(&mut mem, &mut fds, AF_INET, SOCK_DGRAM, 0), Errno::Inval);
    assert_eq!(fds.len(), 0);
    assert_eq!(sock_open(&mut mem, &mut fds, AF_INET, SOCK_STREAM, 14), Errno::Fault);
    assert_eq!(fds.len(), 0);
}

#[test]
fn addresses_of_a_socket() {
    let s = TcpSocket::create(AF_INET, SOCK_STREAM).unwrap();
    assert_eq!(s.local_address(), Err(Errno::Inval));
    assert_eq!(s.remote_address(), Err(Errno::Notconn));
    let mut mem = GuestMemory::new(128);
    let mut fds = FdTable::new();
    let fd = open_socket(&mut mem, &mut fds, AF_INET);
    encode_socket_addr(&mut mem, 16, 16, v4(192, 168, 0, 1, 443)).unwrap();
    assert_eq!(sock_bind(&mem, &mut fds, fd, 16, 16), Errno::Success);
    mem.write_u32(100, 16).unwrap();
    assert_eq!(sock_addr(&mut mem, &fds, fd, 64, 100, false), Errno::Success);
    assert_eq!(decode_socket_addr(&mem, 64, 16), Ok(v4(192, 168, 0, 1, 443)));
    assert_eq!(mem.read_u32(100).unwrap(), 16);
    assert_eq!(sock_addr(&mut mem, &fds, fd, 64, 100, true), Errno::Notconn);
    mem.write_u32(100, 28).unwrap();
    assert_eq!(sock_addr(&mut mem, &fds, fd, 64, 100, false), Errno::Inval);
}

#[test]
fn opt_flag_set_on_one_socket_only() {
    let mut mem = GuestMemory::new(64);
    let mut fds = FdTable::new();
    let a = open_socket(&mut mem, &mut fds, AF_INET);
    let b = open_socket(&mut mem, &mut fds, AF_INET);
    assert_eq!(sock_set_opt_flag(&mut fds, a, SockOption::ReuseAddr, 1), Errno::Success);
    mem.write_u8(40, 7).unwrap();
    assert_eq!(sock_get_opt_flag(&mut mem, &fds, a, SockOption::ReuseAddr, 40), Errno::Success);
    assert_eq!(mem.read_u8(40).unwrap(), 1);
    assert_eq!(sock_get_opt_flag(&mut mem, &fds, b, SockOption::ReuseAddr, 40), Errno::Success);
    assert_eq!(mem.read_u8(40).unwrap(), 0);
    assert_eq!(sock_get_opt_flag(&mut mem, &fds, a, SockOption::KeepAlive, 40), Errno::Success);
    assert_eq!(mem.read_u8(40).unwrap(), 0);
    assert_eq!(sock_set_opt_flag(&mut fds, a, SockOption::ReuseAddr, 0), Errno::Success);
    assert_eq!(sock_get_opt_flag(&mut mem, &fds, a, SockOption::ReuseAddr, 40), Errno::Success);
    assert_eq!(mem.read_u8(40).unwrap(), 0);
}

#[test]
fn opt_flag_errors() {
    let mut mem = GuestMemory::new(64);
    let mut fds = FdTable::new();
    let a = open_socket(&mut mem, &mut fds, AF_INET);
    assert_eq!(sock_set_opt_flag(&mut fds, a, SockOption::ReuseAddr, 2), Errno::Inval);
    assert_eq!(sock_set_opt_flag(&mut fds, a, SockOption::RecvTimeout, 1), Errno::Inval);
    assert_eq!(sock_set_opt_flag(&mut fds, 9, SockOption::ReuseAddr, 1), Errno::Badf);
    assert_eq!(sock_get_opt_flag(&mut mem, &fds, a, SockOption::Ttl, 40), Errno::Inval);
    assert_eq!(sock_get_opt_flag(&mut mem, &fds, a, SockOption::ReuseAddr, 64), Errno::Fault);
}

#[test]
fn opt_time_is_read_from_guest_memory() {
    let mut mem = GuestMemory::new(64);
    let mut fds = FdTable::new();
    let a = open_socket(&mut mem, &mut fds, AF_INET);
    mem.write_u8(16, 1).unwrap();
    mem.write_u64(24, 1_500_000_000).unwrap();
    assert_eq!(sock_set_opt_time(&mem, &mut fds, a, SockOption::RecvTimeout, 16), Errno::Success);
    let time = match &fds.get(a).unwrap().resource {
        Resource::Socket { socket } => socket.get_opt_time(SockOption::RecvTimeout),
        _ => panic!("not a socket"),
    };
    assert_eq!(time, Ok(Some(1_500_000_000)));
    mem.write_u8(16, 0).unwrap();
    assert_eq!(sock_set_opt_time(&mem, &mut fds, a, SockOption::RecvTimeout, 16), Errno::Success);
    let time = match &fds.get(a).unwrap().resource {
        Resource::Socket { socket } => socket.get_opt_time(SockOption::RecvTimeout),
        _ => panic!("not a socket"),
    };
    assert_eq!(time, Ok(None));
    mem.write_u8(16, 2).unwrap();
    assert_eq!(sock_set_opt_time(&mem, &mut fds, a, SockOption::RecvTimeout, 16), Errno::Inval);
    mem.write_u8(16, 1).unwrap();
    assert_eq!(sock_set_opt_time(&mem, &mut fds, a, SockOption::ReuseAddr, 16), Errno::Inval);
    assert_eq!(sock_set_opt_time(&mem, &mut fds, a, SockOption::Linger, 56), Errno::Fault);
}

#[test]
fn descriptor_errors_bad_fd_access_and_not_socket() {
    let mut mem = GuestMemory::new(64);
    let mut fds = FdTable::new();
    encode_socket_addr(&mut mem, 16, 16, v4(0, 0, 0, 0, 0)).unwrap();
    assert_eq!(sock_bind(&mem, &mut fds, 3, 16, 16), Errno::Badf);
    let file = FdEntry {
        rights_base: ALL_RIGHTS,
        rights_inheriting: ALL_RIGHTS,
        offset: 0,
        name: "file".to_string(),
        resource: Resource::RegularFile { open: true },
    };
    let f = fds.open(file).unwrap();
    assert_eq!(sock_bind(&mem, &mut fds, f, 16, 16), Errno::Notsock);
    let limited = FdEntry {
        rights_base: ALL_RIGHTS & !RIGHT_SOCK_BIND,
        rights_inheriting: 0,
        offset: 0,
        name: "limited".to_string(),
        resource: Resource::Socket { socket: TcpSocket::create(AF_INET, SOCK_STREAM).unwrap() },
    };
    let l = fds.open(limited).unwrap();
    assert_eq!(sock_bind(&mem, &mut fds, l, 16, 16), Errno::Access);
    assert_eq!(socket_state(&fds, l), SocketState::Unbound { v6: false });
}

#[test]
fn bind_reads_guest_memory_checked() {
    let mut mem = GuestMemory::new(32);
    let mut fds = FdTable::new();
    let fd = open_socket(&mut mem, &mut fds, AF_INET);
    assert_eq!(sock_bind(&mem, &mut fds, fd, 20, 16), Errno::Fault);
    assert_eq!(sock_bind(&mem, &mut fds, fd, 0, 20), Errno::Inval);
    assert_eq!(sock_bind(&mem, &mut fds, fd, 8, 28), Errno::Fault);
    assert_eq!(sock_bind(&mem, &mut fds, fd, 0, 28), Errno::Inval);
    assert_eq!(socket_state(&fds, fd), SocketState::Unbound { v6: false });
}

#[test]
fn host_failure_of_listen_and_connect_is_mapped() {
    let mut mem = GuestMemory::new(64);
    let mut fds = FdTable::new();
    let fd = open_socket(&mut mem, &mut fds, AF_INET);
    encode_socket_addr(&mut mem, 16, 16, v4(0, 0, 0, 0, 80)).unwrap();
    assert_eq!(sock_bind(&mem, &mut fds, fd, 16, 16), Errno::Success);
    assert_eq!(sock_listen_finish(&mut fds, fd, Err(HostErrorKind::AddrInUse), 1), Errno::Addrinuse);
    assert_eq!(socket_state(&fds, fd), SocketState::Bound { local: v4(0, 0, 0, 0, 80) });
    assert_eq!(
        sock_connect_finish(&mut fds, fd, Err(HostErrorKind::ConnectionRefused)),
        Errno::Connrefused
    );
    assert_eq!(socket_state(&fds, fd), SocketState::Bound { local: v4(0, 0, 0, 0, 80) });
}

#[test]
fn socket_descriptor_names_carry_a_uuid() {
    let mut mem = GuestMemory::new(16);
    let mut fds = FdTable::new();
    let a = open_socket(&mut mem, &mut fds, AF_INET);
    let b = open_socket(&mut mem, &mut fds, AF_INET);
    let na = fds.get(a).unwrap().name.clone();
    let nb = fds.get(b).unwrap().name.clone();
    assert!(na.starts_with("<socket:"));
    assert!(na.ends_with('>'));
    assert_eq!(na.len(), "<socket:".len() + 36 + 1);
    assert_ne!(na, nb);
    assert_eq!(fds.get(a).unwrap().rights_base, ALL_RIGHTS);
}

#[test]
fn cancel_before_completion_yields_canceled_once() {
    let mut exec = ExecutorState::new();
    let (handle, registration) = futures::future::AbortHandle::new_pair();
    let token = exec.spawn_oneshot(handle).unwrap();
    assert_eq!(token, CancellationToken(1));
    assert_eq!(exec.cancel(token), Ok(()));
    let done = exec.finish_oneshot(token, Errno::Timedout, 42);
    assert_eq!(done.result, Errno::Canceled);
    assert_eq!(done.user_context, 42);
    assert_eq!(exec.cancel(token), Err(Errno::Inval));
    // the abort signal reached the registration
    let aborted = futures::future::Abortable::new(futures::future::pending::<()>(), registration);
    assert!(aborted.is_aborted());
}

#[test]
fn completion_before_cancel_keeps_natural_result() {
    let mut exec = ExecutorState::new();
    let (h1, _r1) = futures::future::AbortHandle::new_pair();
    let (h2, _r2) = futures::future::AbortHandle::new_pair();
    let t1 = exec.spawn_oneshot(h1).unwrap();
    let t2 = exec.spawn_oneshot(h2).unwrap();
    assert_eq!(t2, CancellationToken(2));
    let done = exec.finish_oneshot(t1, Errno::Success, 5);
    assert_eq!(done.result, Errno::Success);
    assert_eq!(done.user_context, 5);
    assert_eq!(exec.cancel(t1), Err(Errno::Inval));
    assert_eq!(exec.cancel(t2), Ok(()));
    assert_eq!(exec.cancel(CancellationToken(0)), Err(Errno::Inval));
}

#[test]
fn immediate_completions_come_back_in_order() {
    let mut exec = ExecutorState::new();
    assert_eq!(exec.wait_local(), None);
    assert_eq!(exec.enqueue_immediate(Errno::Success, 1), CancellationToken(0));
    assert_eq!(exec.enqueue_immediate(Errno::Again, 2), CancellationToken(0));
    let first = exec.wait_local().unwrap();
    assert_eq!((first.result, first.user_context), (Errno::Success, 1));
    let second = exec.wait_local().unwrap();
    assert_eq!((second.result, second.user_context), (Errno::Again, 2));
    assert_eq!(exec.wait_local(), None);
}

#[test]
fn host_error_kinds_map_to_codes() {
    let cases = [
        (HostErrorKind::NotFound, Errno::Exist),
        (HostErrorKind::PermissionDenied, Errno::Perm),
        (HostErrorKind::ConnectionRefused, Errno::Connrefused),
        (HostErrorKind::ConnectionReset, Errno::Connreset),
        (HostErrorKind::ConnectionAborted, Errno::Connaborted),
        (HostErrorKind::NotConnected, Errno::Notconn),
        (HostErrorKind::AddrInUse, Errno::Addrinuse),
        (HostErrorKind::AddrNotAvailable, Errno::Addrnotavail),
        (HostErrorKind::BrokenPipe, Errno::Pipe),
        (HostErrorKind::AlreadyExists, Errno::Exist),
        (HostErrorKind::WouldBlock, Errno::Again),
        (HostErrorKind::InvalidInput, Errno::Inval),
        (HostErrorKind::InvalidData, Errno::Inval),
        (HostErrorKind::TimedOut, Errno::Timedout),
        (HostErrorKind::WriteZero, Errno::Inval),
        (HostErrorKind::Interrupted, Errno::Again),
        (HostErrorKind::UnexpectedEof, Errno::Io),
        (HostErrorKind::Other, Errno::Inval),
    ];
    for (kind, code) in cases {
        assert_eq!(from_tokio_error(kind), code);
    }
    assert_eq!(Errno::Canceled.code(), 11);
    assert_eq!(Errno::Again.code(), 6);
    assert_eq!(Errno::Noent.code(), 44);
}

#[test]
fn accept_with_wrong_address_buffer_keeps_the_connection() {
    let mut mem = GuestMemory::new(128);
    let mut fds = FdTable::new();
    let mut exec = ExecutorState::new();
    let server = open_socket(&mut mem, &mut fds, AF_INET);
    encode_socket_addr(&mut mem, 16, 16, v4(0, 0, 0, 0, 80)).unwrap();
    assert_eq!(sock_bind(&mem, &mut fds, server, 16, 16), Errno::Success);
    assert_eq!(sock_listen_finish(&mut fds, server, Ok(v4(0, 0, 0, 0, 80)), 1), Errno::Success);
    let conn = AcceptedConnection { conn_id: 4, local: v4(0, 0, 0, 0, 80), remote: v4(5, 5, 5, 5, 5) };
    exec.offer_accepted(conn).unwrap();
    let before = mem.read_bytes(0, 128).unwrap();
    assert_eq!(sock_accept(&mut mem, &mut fds, &mut exec, server, 8, 64, 28), Err(Errno::Inval));
    assert_eq!(sock_accept(&mut mem, &mut fds, &mut exec, server, 8, 120, 16), Err(Errno::Fault));
    assert_eq!(mem.read_bytes(0, 128).unwrap(), before);
    assert_eq!(fds.len(), 1);
    let (nfd, got) = sock_accept(&mut mem, &mut fds, &mut exec, server, 8, 64, 16).unwrap();
    assert_eq!(got, conn);
    let e = fds.get(nfd).unwrap();
    assert_eq!((e.rights_base, e.rights_inheriting, e.offset), (ALL_RIGHTS, ALL_RIGHTS, 0));
}

#[test]
fn opened_socket_holds_every_right_at_offset_zero() {
    let mut mem = GuestMemory::new(16);
    let mut fds = FdTable::new();
    let fd = open_socket(&mut mem, &mut fds, AF_INET6);
    let e = fds.get(fd).unwrap();
    assert_eq!((e.rights_base, e.rights_inheriting, e.offset), (ALL_RIGHTS, ALL_RIGHTS, 0));
    assert_eq!(socket_state(&fds, fd), SocketState::Unbound { v6: true });
}
