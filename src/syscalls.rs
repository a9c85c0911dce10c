//! Socket syscall entry points. Each one resolves the descriptor (`Badf`
//! if absent), checks its rights (`Access` if short), reads its arguments
//! out of guest memory (`Fault` out of bounds), then hands the work to the
//! socket state machine and reports a result code; nothing else crosses
//! back to the guest.
//!
//! Where the host has to act in between (open a listener, connect), the
//! syscall is split: a `_begin` half decides and says what to ask of the
//! host, a `_finish` half takes what the host answered.

use vstd::prelude::*;
use vstd::string::StringExecFns;
use crate::errno::{Errno, HostErrorKind, host_errno, from_tokio_error};
use crate::memory::{GuestMemory, in_bounds, splice, le_u64, le_u32, le_bytes_u32};
use crate::executor::{ExecutorState, ExecutorModel, AcceptedConnection};
use crate::sockaddr::{SockAddr, decode_socket_addr, decode_outcome, encode_socket_addr, wire_encode, wire_size};
use crate::socket::{TcpSocket, SocketModel, SocketOp, SocketState, SockOption, step, flag_slot, time_slot};
use crate::fd_table::{
    FdTable, FdEntry, Resource, entry_at, has_rights, ALL_RIGHTS, RIGHT_SOCK_ACCEPT, RIGHT_SOCK_ADDR_LOCAL,
    RIGHT_SOCK_ADDR_REMOTE, RIGHT_SOCK_BIND, RIGHT_SOCK_CONNECT, RIGHT_SOCK_LISTEN,
};

verus! {

/// What resolving `fd` for a socket operation needing `rights` gives.
pub open spec fn socket_at(t: Seq<Option<FdEntry>>, fd: u32, rights: u64) -> Result<TcpSocket, Errno> {
    match entry_at(t, fd) {
        None => Err(Errno::Badf),
        Some(e) => if !has_rights(e.rights_base, rights) {
            Err(Errno::Access)
        } else {
            match e.resource {
                Resource::Socket { socket } => Ok(socket),
                _ => Err(Errno::Notsock),
            }
        },
    }
}

/// A change asked of one socket.
pub enum SocketAction {
    Transition { op: SocketOp },
    SetFlag { opt: SockOption, flag: bool },
    SetTime { opt: SockOption, time: Option<u64> },
}

/// The socket after an action, or `None` where the action is refused.
pub open spec fn model_after(m: SocketModel, a: SocketAction) -> Option<SocketModel> {
    match a {
        SocketAction::Transition { op } => match step(m.state, op) {
            Some(n) => Some(SocketModel { state: n, ..m }),
            None => None,
        },
        SocketAction::SetFlag { opt, flag } => match flag_slot(opt) {
            Some(i) => Some(SocketModel { flags: m.flags.update(i, flag), ..m }),
            None => None,
        },
        SocketAction::SetTime { opt, time } => match time_slot(opt) {
            Some(i) => Some(SocketModel { times: m.times.update(i, time), ..m }),
            None => None,
        },
    }
}

/// The socket `m` moved to lifecycle state `st`, options kept.
pub open spec fn with_state(m: SocketModel, st: SocketState) -> SocketModel {
    SocketModel { state: st, ..m }
}

/// `t2` is `t` with the socket at `fd` replaced by one whose contents are
/// `m`; everything else, including the rest of that entry, is kept.
pub open spec fn socket_replaced(t: Seq<Option<FdEntry>>, t2: Seq<Option<FdEntry>>, fd: u32, m: SocketModel) -> bool {
    &&& t2.len() == t.len()
    &&& fd < t.len()
    &&& forall|i: int| 0 <= i < t.len() && i != fd ==> t2[i] == t[i]
    &&& match (t[fd as int], t2[fd as int]) {
        (Some(e), Some(e2)) => {
            &&& e2.rights_base == e.rights_base
            &&& e2.rights_inheriting == e.rights_inheriting
            &&& e2.offset == e.offset
            &&& e2.name == e.name
            &&& match e2.resource {
                Resource::Socket { socket } => socket@ == m,
                _ => false,
            }
        },
        _ => false,
    }
}

/// A socket that resolves with some rights resolves with none, to itself.
proof fn lemma_no_rights_needed(t: Seq<Option<FdEntry>>, fd: u32, rights: u64)
    requires
        socket_at(t, fd, rights) is Ok,
    ensures
        socket_at(t, fd, 0) == socket_at(t, fd, rights),
{
    let b = entry_at(t, fd)->Some_0.rights_base;
    assert(b & 0 == 0) by (bit_vector);
}

/// Resolves `fd` as a socket with `rights`, without changing anything.
fn check_socket(fds: &FdTable, fd: u32, rights: u64) -> (r: Result<(), Errno>)
    ensures
        r.is_ok() == socket_at(fds@, fd, rights).is_ok(),
        r matches Err(e) ==> socket_at(fds@, fd, rights) == Err::<TcpSocket, Errno>(e),
{
    match fds.get(fd) {
        None => Err(Errno::Badf),
        Some(e) => {
            if e.rights_base & rights != rights {
                return Err(Errno::Access);
            }
            match &e.resource {
                Resource::Socket { .. } => Ok(()),
                _ => Err(Errno::Notsock),
            }
        },
    }
}

/// Applies `action` to the socket at `fd`. Refused actions give `Inval` and
/// leave the table as it was.
fn apply_to_socket(fds: &mut FdTable, fd: u32, action: SocketAction) -> (r: Result<(), Errno>)
    requires
        old(fds).wf(),
        socket_at(old(fds)@, fd, 0) is Ok,
    ensures
        final(fds).wf(),
        model_after(socket_at(old(fds)@, fd, 0)->Ok_0@, action) matches Some(m) ==> r.is_ok()
            && socket_replaced(old(fds)@, final(fds)@, fd, m),
        model_after(socket_at(old(fds)@, fd, 0)->Ok_0@, action) is None ==> r == Err::<(), Errno>(
            Errno::Inval,
        ) && final(fds)@ == old(fds)@,
{
    let ghost t0 = fds@;
    let mut e = match fds.take(fd) {
        Some(e) => e,
        None => return Err(Errno::Badf),
    };
    assert(e.wf()) by {
        assert(crate::fd_table::slot_wf(t0[fd as int]));
    }
    let r = match &mut e.resource {
        Resource::Socket { socket } => match action {
            SocketAction::Transition { op } => socket.transition(op),
            SocketAction::SetFlag { opt, flag } => socket.set_opt_flag(opt, flag),
            SocketAction::SetTime { opt, time } => socket.set_opt_time(opt, time),
        },
        _ => Err(Errno::Notsock),
    };
    fds.put(fd, e);
    assert(fd < t0.len());
    if r.is_err() {
        assert(fds@ =~= t0);
    }
    r
}

/// Binds the socket at `fd` to the address in the wire structure of
/// `addr_len` bytes at `addr_ptr`. Needs the bind right; the socket must be
/// unbound and of the address's family, else `Inval`.
pub fn sock_bind(memory: &GuestMemory, fds: &mut FdTable, fd: u32, addr_ptr: u32, addr_len: u32) -> (r: Errno)
    requires
        old(fds).wf(),
    ensures
        final(fds).wf(),
        r != Errno::Success ==> final(fds)@ == old(fds)@,
        socket_at(old(fds)@, fd, RIGHT_SOCK_BIND) matches Err(e) ==> r == e,
        socket_at(old(fds)@, fd, RIGHT_SOCK_BIND) matches Ok(s) ==> match decode_outcome(
            memory@,
            addr_ptr,
            addr_len,
        ) {
            Err(e) => r == e,
            Ok(a) => if s@.state matches SocketState::Unbound { v6 } && v6 == a.v6 {
                r == Errno::Success && exists|b: SockAddr| #[trigger] b@ == a && socket_replaced(
                    old(fds)@,
                    final(fds)@,
                    fd,
                    with_state(s@, SocketState::Bound { local: b }),
                )
            } else {
                r == Errno::Inval
            },
        },
{
    if let Err(e) = check_socket(fds, fd, RIGHT_SOCK_BIND) {
        return e;
    }
    let addr = match decode_socket_addr(memory, addr_ptr, addr_len) {
        Ok(a) => a,
        Err(e) => return e,
    };
    proof {
        lemma_no_rights_needed(fds@, fd, RIGHT_SOCK_BIND);
    }
    match apply_to_socket(fds, fd, SocketAction::Transition { op: SocketOp::Bind { addr } }) {
        Ok(()) => Errno::Success,
        Err(e) => e,
    }
}

/// The socket at `fd`, if there is one.
fn get_socket(fds: &FdTable, fd: u32) -> (r: Option<&TcpSocket>)
    ensures
        socket_at(fds@, fd, 0) is Ok ==> r == Some(&socket_at(fds@, fd, 0)->Ok_0),
        (fds.wf() && r is Some) ==> r->Some_0.wf(),
{
    match fds.get(fd) {
        Some(e) => {
            assert(fds.wf() ==> crate::fd_table::slot_wf(fds@[fd as int]));
            match &e.resource {
                Resource::Socket { socket } => Some(socket),
                _ => None,
            }
        },
        None => None,
    }
}

/// First half of `listen`: the address the host listener must be opened on,
/// which is the socket's bound address. Needs the listen right; a socket
/// that is not bound gives `Inval`.
pub fn sock_listen_begin(fds: &FdTable, fd: u32) -> (r: Result<SockAddr, Errno>)
    ensures
        socket_at(fds@, fd, RIGHT_SOCK_LISTEN) matches Err(e) ==> r == Err::<SockAddr, Errno>(e),
        socket_at(fds@, fd, RIGHT_SOCK_LISTEN) matches Ok(s) ==> match s@.state {
            SocketState::Bound { local } => r == Ok::<SockAddr, Errno>(local),
            _ => r == Err::<SockAddr, Errno>(Errno::Inval),
        },
{
    check_socket(fds, fd, RIGHT_SOCK_LISTEN)?;
    proof {
        lemma_no_rights_needed(fds@, fd, RIGHT_SOCK_LISTEN);
    }
    get_socket(fds, fd).unwrap().listen_address()
}

/// Second half of `listen`: `host` is what opening the listener gave, the
/// address it listens on or the host's error. On success the socket moves
/// to `Listening` with `backlog`.
pub fn sock_listen_finish(fds: &mut FdTable, fd: u32, host: Result<SockAddr, HostErrorKind>, backlog: u32) -> (r: Errno)
    requires
        old(fds).wf(),
    ensures
        final(fds).wf(),
        r != Errno::Success ==> final(fds)@ == old(fds)@,
        socket_at(old(fds)@, fd, RIGHT_SOCK_LISTEN) matches Err(e) ==> r == e,
        socket_at(old(fds)@, fd, RIGHT_SOCK_LISTEN) matches Ok(s) ==> match host {
            Err(k) => r == host_errno(k),
            Ok(local) => match step(s@.state, SocketOp::Listen { local, backlog }) {
                Some(n) => r == Errno::Success && socket_replaced(old(fds)@, final(fds)@, fd, with_state(s@, n)),
                None => r == Errno::Inval,
            },
        },
{
    if let Err(e) = check_socket(fds, fd, RIGHT_SOCK_LISTEN) {
        return e;
    }
    let local = match host {
        Ok(a) => a,
        Err(k) => return from_tokio_error(k),
    };
    proof {
        lemma_no_rights_needed(fds@, fd, RIGHT_SOCK_LISTEN);
    }
    match apply_to_socket(fds, fd, SocketAction::Transition { op: SocketOp::Listen { local, backlog } }) {
        Ok(()) => Errno::Success,
        Err(e) => e,
    }
}

/// First half of `connect`: reads the peer's address from the wire
/// structure at `addr_ptr` and hands it back for the host to connect to.
/// Needs the connect right; the socket must be unbound or bound, and the
/// address of its family, else `Inval`.
pub fn sock_connect_begin(memory: &GuestMemory, fds: &FdTable, fd: u32, addr_ptr: u32, addr_len: u32) -> (r: Result<SockAddr, Errno>)
    ensures
        socket_at(fds@, fd, RIGHT_SOCK_CONNECT) matches Err(e) ==> r == Err::<SockAddr, Errno>(e),
        socket_at(fds@, fd, RIGHT_SOCK_CONNECT) matches Ok(s) ==> match decode_outcome(memory@, addr_ptr, addr_len) {
            Err(e) => r == Err::<SockAddr, Errno>(e),
            Ok(a) => if (s@.state is Unbound || s@.state is Bound) && a.v6 == crate::socket::state_v6(s@.state) {
                r matches Ok(b) && b@ == a
            } else {
                r == Err::<SockAddr, Errno>(Errno::Inval)
            },
        },
{
    check_socket(fds, fd, RIGHT_SOCK_CONNECT)?;
    let addr = decode_socket_addr(memory, addr_ptr, addr_len)?;
    proof {
        lemma_no_rights_needed(fds@, fd, RIGHT_SOCK_CONNECT);
    }
    get_socket(fds, fd).unwrap().check_connect(addr)?;
    Ok(addr)
}

/// Second half of `connect`: `host` is what the host connect gave, the
/// local and peer addresses of the new stream or the host's error. On
/// success the socket moves to `Connected`.
pub fn sock_connect_finish(fds: &mut FdTable, fd: u32, host: Result<(SockAddr, SockAddr), HostErrorKind>) -> (r: Errno)
    requires
        old(fds).wf(),
    ensures
        final(fds).wf(),
        r != Errno::Success ==> final(fds)@ == old(fds)@,
        socket_at(old(fds)@, fd, RIGHT_SOCK_CONNECT) matches Err(e) ==> r == e,
        socket_at(old(fds)@, fd, RIGHT_SOCK_CONNECT) matches Ok(s) ==> match host {
            Err(k) => r == host_errno(k),
            Ok((local, remote)) => match step(s@.state, SocketOp::Connect { local, remote }) {
                Some(n) => r == Errno::Success && socket_replaced(old(fds)@, final(fds)@, fd, with_state(s@, n)),
                None => r == Errno::Inval,
            },
        },
{
    if let Err(e) = check_socket(fds, fd, RIGHT_SOCK_CONNECT) {
        return e;
    }
    let (local, remote) = match host {
        Ok(p) => p,
        Err(k) => return from_tokio_error(k),
    };
    proof {
        lemma_no_rights_needed(fds@, fd, RIGHT_SOCK_CONNECT);
    }
    match apply_to_socket(fds, fd, SocketAction::Transition { op: SocketOp::Connect { local, remote } }) {
        Ok(()) => Errno::Success,
        Err(e) => e,
    }
}

/// Writes the value of a boolean option of the socket at `fd` to guest
/// memory at `ret_flag` as one byte (0 or 1). Options never set read as
/// false; an option that is not boolean gives `Inval`.
pub fn sock_get_opt_flag(memory: &mut GuestMemory, fds: &FdTable, fd: u32, opt: SockOption, ret_flag: u32) -> (r: Errno)
    requires
        fds.wf(),
    ensures
        r != Errno::Success ==> *final(memory) == *old(memory),
        socket_at(fds@, fd, 0) matches Err(e) ==> r == e,
        socket_at(fds@, fd, 0) matches Ok(s) ==> match flag_slot(opt) {
            None => r == Errno::Inval,
            Some(i) => if in_bounds(ret_flag as int, 1, old(memory)@.len() as int) {
                r == Errno::Success && final(memory)@ == splice(old(memory)@, ret_flag as int, seq![if s@.flags[i] { 1u8 } else { 0u8 }])
            } else {
                r == Errno::Fault
            },
        },
{
    if let Err(e) = check_socket(fds, fd, 0) {
        return e;
    }
    let socket = get_socket(fds, fd).unwrap();
    let flag = match socket.get_opt_flag(opt) {
        Ok(f) => f,
        Err(e) => return e,
    };
    match memory.write_u8(ret_flag, if flag { 1 } else { 0 }) {
        Ok(()) => Errno::Success,
        Err(e) => e,
    }
}

/// Sets a boolean option of the socket at `fd`. `flag` is the guest's
/// boolean: 0 or 1, anything else is `Inval`; so is an option that is not
/// boolean.
pub fn sock_set_opt_flag(fds: &mut FdTable, fd: u32, opt: SockOption, flag: u8) -> (r: Errno)
    requires
        old(fds).wf(),
    ensures
        final(fds).wf(),
        r != Errno::Success ==> final(fds)@ == old(fds)@,
        flag > 1 ==> r == Errno::Inval,
        flag <= 1 ==> match socket_at(old(fds)@, fd, 0) {
            Err(e) => r == e,
            Ok(s) => match flag_slot(opt) {
                Some(i) => r == Errno::Success && socket_replaced(old(fds)@, final(fds)@, fd,
                    SocketModel { flags: s@.flags.update(i, flag == 1), ..s@ }),
                None => r == Errno::Inval,
            },
        },
{
    let flag = if flag == 0 {
        false
    } else if flag == 1 {
        true
    } else {
        return Errno::Inval;
    };
    if let Err(e) = check_socket(fds, fd, 0) {
        return e;
    }
    match apply_to_socket(fds, fd, SocketAction::SetFlag { opt, flag }) {
        Ok(()) => Errno::Success,
        Err(e) => e,
    }
}

/// What the guest's optional timestamp at `ptr` holds: a tag byte (0 for
/// none, 1 for some) and, 8 bytes further, a little-endian count of
/// nanoseconds. `Fault` outside memory, `Inval` for another tag.
pub open spec fn option_timestamp(m: Seq<u8>, ptr: u32) -> Result<Option<u64>, Errno> {
    if !in_bounds(ptr as int, 16, m.len() as int) {
        Err(Errno::Fault)
    } else if m[ptr as int] == 0 {
        Ok(None)
    } else if m[ptr as int] == 1 {
        Ok(Some(le_u64(m.subrange(ptr + 8, ptr + 16))))
    } else {
        Err(Errno::Inval)
    }
}

/// Sets a timeout option (receive, send, connect, accept, linger) of the
/// socket at `fd` from the optional timestamp at `time_ptr`. Other options
/// give `Inval`.
pub fn sock_set_opt_time(memory: &GuestMemory, fds: &mut FdTable, fd: u32, opt: SockOption, time_ptr: u32) -> (r: Errno)
    requires
        old(fds).wf(),
    ensures
        final(fds).wf(),
        r != Errno::Success ==> final(fds)@ == old(fds)@,
        match option_timestamp(memory@, time_ptr) {
            Err(e) => r == e,
            Ok(time) => match time_slot(opt) {
                None => r == Errno::Inval,
                Some(i) => match socket_at(old(fds)@, fd, 0) {
                    Err(e) => r == e,
                    Ok(s) => r == Errno::Success && socket_replaced(old(fds)@, final(fds)@, fd,
                        SocketModel { times: s@.times.update(i, time), ..s@ }),
                },
            },
        },
{
    let b = match memory.read_bytes(time_ptr, 16) {
        Ok(b) => b,
        Err(e) => return e,
    };
    let tag = b[0];
    let nanos: u64 = (b[8] as u64) | ((b[9] as u64) << 8u64) | ((b[10] as u64) << 16u64) | ((b[11] as u64) << 24u64)
        | ((b[12] as u64) << 32u64) | ((b[13] as u64) << 40u64) | ((b[14] as u64) << 48u64)
        | ((b[15] as u64) << 56u64);
    assert(b@.subrange(8, 16) =~= memory@.subrange(time_ptr + 8, time_ptr + 16));
    let time = if tag == 0 {
        None
    } else if tag == 1 {
        Some(nanos)
    } else {
        return Errno::Inval;
    };
    match opt {
        SockOption::RecvTimeout | SockOption::SendTimeout | SockOption::ConnectTimeout
        | SockOption::AcceptTimeout | SockOption::Linger => {},
        _ => return Errno::Inval,
    }
    if let Err(e) = check_socket(fds, fd, 0) {
        return e;
    }
    match apply_to_socket(fds, fd, SocketAction::SetTime { opt, time }) {
        Ok(()) => Errno::Success,
        Err(e) => e,
    }
}

/// Relies on `uuid::Uuid::new_v4` and the hyphenated text form that its
/// `Display` writes: 36 characters.
#[verifier::external_body]
fn random_uuid() -> (r: String)
    ensures
        r@.len() == 36,
{
    uuid::Uuid::new_v4().to_string()
}

/// A fresh descriptor name `<kind:UUID>`.
fn descriptor_name(kind: &str) -> (r: String)
    ensures
        exists|u: Seq<char>| u.len() == 36 && #[trigger] (r@) == seq!['<'] + kind@ + seq![':'] + u + seq!['>'],
{
    let mut name = "<".to_owned();
    name.append(kind);
    name.append(":");
    let id = random_uuid();
    name.append(id.as_str());
    name.append(">");
    proof {
        reveal_strlit("<");
        reveal_strlit(":");
        reveal_strlit(">");
        assert(name@ =~= seq!['<'] + kind@ + seq![':'] + id@ + seq!['>']);
    }
    name
}

/// `t2` is `t` with a new entry at the free descriptor `fd`.
pub open spec fn opened_at(t: Seq<Option<FdEntry>>, t2: Seq<Option<FdEntry>>, fd: u32) -> bool {
    &&& entry_at(t, fd) is None
    &&& fd <= t.len()
    &&& t2[fd as int] is Some
    &&& t2 == if fd < t.len() { t.update(fd as int, t2[fd as int]) } else { t.push(t2[fd as int]) }
}

/// The entry at `fd` is a socket holding every right, base and inherited,
/// at offset zero.
pub open spec fn fresh_socket_entry(t: Seq<Option<FdEntry>>, fd: u32) -> bool {
    &&& socket_at(t, fd, ALL_RIGHTS) is Ok
    &&& entry_at(t, fd)->Some_0.rights_base == ALL_RIGHTS
    &&& entry_at(t, fd)->Some_0.rights_inheriting == ALL_RIGHTS
    &&& entry_at(t, fd)->Some_0.offset == 0
}

/// The socket held by the entry at `fd`.
pub open spec fn socket_of(t: Seq<Option<FdEntry>>, fd: u32) -> TcpSocket {
    socket_at(t, fd, 0)->Ok_0
}

/// Creates a socket of family `domain` and type `ty` and writes its new
/// descriptor, which holds every right, to guest memory at `fd_out` (four
/// bytes, little-endian). Only IPv4 and IPv6 stream sockets can be made,
/// else `Inval`.
pub fn sock_open(memory: &mut GuestMemory, fds: &mut FdTable, domain: u16, ty: u16, fd_out: u32) -> (r: Errno)
    requires
        old(fds).wf(),
    ensures
        final(fds).wf(),
        r != Errno::Success ==> final(fds)@ == old(fds)@ && *final(memory) == *old(memory),
        !in_bounds(fd_out as int, 4, old(memory)@.len() as int) ==> r == Errno::Fault,
        in_bounds(fd_out as int, 4, old(memory)@.len() as int) && !(ty == crate::socket::SOCK_STREAM && (
        domain == crate::sockaddr::AF_INET || domain == crate::sockaddr::AF_INET6)) ==> r == Errno::Inval,
        in_bounds(fd_out as int, 4, old(memory)@.len() as int) && ty == crate::socket::SOCK_STREAM && (
        domain == crate::sockaddr::AF_INET || domain == crate::sockaddr::AF_INET6) && old(fds)@.len() <= u32::MAX
            ==> r == Errno::Success,
        r == Errno::Success ==> exists|fd: u32| #[trigger] opened_at(old(fds)@, final(fds)@, fd)
            && final(memory)@ == splice(old(memory)@, fd_out as int, le_bytes_u32(fd))
            && fresh_socket_entry(final(fds)@, fd)
            && socket_of(final(fds)@, fd)@.state == (SocketState::Unbound { v6: domain == crate::sockaddr::AF_INET6 }),
{
    if fd_out as usize > memory.size() || 4 > memory.size() - fd_out as usize {
        return Errno::Fault;
    }
    let socket = match TcpSocket::create(domain, ty) {
        Ok(s) => s,
        Err(e) => return e,
    };
    let ghost model = socket@;
    let name = descriptor_name("socket");
    let entry = FdEntry { rights_base: ALL_RIGHTS, rights_inheriting: ALL_RIGHTS, offset: 0, name, resource: Resource::Socket { socket } };
    let ghost placed = entry;
    let fd = match fds.open(entry) {
        Ok(fd) => fd,
        Err(e) => return e,
    };
    let _in_bounds = memory.write_u32(fd_out, fd);
    assert(has_rights(ALL_RIGHTS, ALL_RIGHTS)) by (bit_vector);
    assert(has_rights(ALL_RIGHTS, 0)) by (bit_vector);
    assert(entry_at(fds@, fd) == Some(placed));
    assert(opened_at(old(fds)@, fds@, fd));
    assert(socket_of(fds@, fd)@ == model);
    Errno::Success
}

/// Takes one connection from the accept hand-off queue without waiting and
/// gives it a new descriptor, which holds every right: its socket is
/// `Connected` with the connection's addresses. The descriptor is written
/// at `fd_out` and the peer's address as a wire structure of `addr_size`
/// bytes at `addr_ptr`. With no connection waiting the result is `Again`
/// at once. Needs the accept right; the socket must be listening, else
/// `Inval`. A buffer of the wrong size for the peer's address gives
/// `Inval`, one outside memory `Fault`. On any error nothing changes: the
/// connection stays queued.
pub fn sock_accept(
    memory: &mut GuestMemory,
    fds: &mut FdTable,
    exec: &mut ExecutorState,
    fd: u32,
    fd_out: u32,
    addr_ptr: u32,
    addr_size: u32,
) -> (r: Result<(u32, AcceptedConnection), Errno>)
    requires
        old(fds).wf(),
        old(exec).wf(),
    ensures
        final(fds).wf(),
        final(exec).wf(),
        r is Err ==> final(fds)@ == old(fds)@ && final(exec)@ == old(exec)@ && *final(memory) == *old(memory),
        socket_at(old(fds)@, fd, RIGHT_SOCK_ACCEPT) matches Err(e) ==> r == Err::<(u32, AcceptedConnection), Errno>(e),
        socket_at(old(fds)@, fd, RIGHT_SOCK_ACCEPT) matches Ok(s) && !(s@.state is Listening) ==> r == Err::<(u32, AcceptedConnection), Errno>(Errno::Inval),
        socket_at(old(fds)@, fd, RIGHT_SOCK_ACCEPT) matches Ok(s) && s@.state is Listening ==> {
            &&& !in_bounds(fd_out as int, 4, old(memory)@.len() as int) ==> r == Err::<(u32, AcceptedConnection), Errno>(Errno::Fault)
            &&& in_bounds(fd_out as int, 4, old(memory)@.len() as int) && old(exec)@.accepted.len() == 0 ==> r == Err::<(u32, AcceptedConnection), Errno>(Errno::Again)
            &&& in_bounds(fd_out as int, 4, old(memory)@.len() as int) && old(exec)@.accepted.len() > 0 ==> {
                let c = old(exec)@.accepted[0];
                &&& addr_size != wire_size(c.remote@.v6) ==> r == Err::<(u32, AcceptedConnection), Errno>(Errno::Inval)
                &&& addr_size == wire_size(c.remote@.v6) && !in_bounds(addr_ptr as int, addr_size as int, old(memory)@.len() as int) ==> r == Err::<(u32, AcceptedConnection), Errno>(Errno::Fault)
                &&& addr_size == wire_size(c.remote@.v6) && in_bounds(addr_ptr as int, addr_size as int, old(memory)@.len() as int)
                    && old(fds)@.len() <= u32::MAX ==> r is Ok
            }
        },
        r matches Ok((nfd, c)) ==> {
            &&& old(exec)@.accepted.len() > 0
            &&& c == old(exec)@.accepted[0]
            &&& final(exec)@ == (ExecutorModel { accepted: old(exec)@.accepted.drop_first(), ..old(exec)@ })
            &&& opened_at(old(fds)@, final(fds)@, nfd)
            &&& fresh_socket_entry(final(fds)@, nfd)
            &&& socket_of(final(fds)@, nfd)@.state == (SocketState::Connected { local: c.local, remote: c.remote })
            &&& addr_size == wire_size(c.remote@.v6)
            &&& final(memory)@ == splice(splice(old(memory)@, fd_out as int, le_bytes_u32(nfd)), addr_ptr as int, wire_encode(c.remote@))
        },
{
    check_socket(fds, fd, RIGHT_SOCK_ACCEPT)?;
    proof {
        lemma_no_rights_needed(fds@, fd, RIGHT_SOCK_ACCEPT);
    }
    get_socket(fds, fd).unwrap().check_accept()?;
    if fd_out as usize > memory.size() || 4 > memory.size() - fd_out as usize {
        return Err(Errno::Fault);
    }
    let conn = match exec.peek_accepted() {
        Some(c) => c,
        None => return Err(Errno::Again),
    };
    let wanted = if conn.remote.is_v6() { crate::sockaddr::SOCKADDR_IN6_SIZE } else { crate::sockaddr::SOCKADDR_IN_SIZE };
    if addr_size != wanted {
        return Err(Errno::Inval);
    }
    if addr_ptr as usize > memory.size() || addr_size as usize > memory.size() - addr_ptr as usize {
        return Err(Errno::Fault);
    }
    let socket = TcpSocket::accepted(conn.local, conn.remote);
    let ghost model = socket@;
    let name = descriptor_name("accept");
    let entry = FdEntry { rights_base: ALL_RIGHTS, rights_inheriting: ALL_RIGHTS, offset: 0, name, resource: Resource::Socket { socket } };
    let ghost placed = entry;
    let nfd = fds.open(entry)?;
    let _in_bounds = memory.write_u32(fd_out, nfd);
    assert(has_rights(ALL_RIGHTS, ALL_RIGHTS)) by (bit_vector);
    assert(has_rights(ALL_RIGHTS, 0)) by (bit_vector);
    assert(entry_at(fds@, nfd) == Some(placed));
    assert(opened_at(old(fds)@, fds@, nfd));
    assert(socket_of(fds@, nfd)@ == model);
    let _encoded = encode_socket_addr(memory, addr_ptr, addr_size, conn.remote);
    let _taken = exec.poll_accepted();
    Ok((nfd, conn))
}

/// Writes the local address (`remote` false) or the peer's address
/// (`remote` true) of the socket at `fd` as a wire structure at `addr_ptr`.
/// The guest's buffer size is read from `size_ptr` (four bytes) and the
/// size written is stored back there. Needs the matching address right.
/// An unbound socket has no local address (`Inval`); a socket that is not
/// connected has no peer (`Notconn`).
pub fn sock_addr(memory: &mut GuestMemory, fds: &FdTable, fd: u32, addr_ptr: u32, size_ptr: u32, remote: bool) -> (r: Errno)
    ensures
        r != Errno::Success ==> *final(memory) == *old(memory),
        ({
            let rights = if remote { RIGHT_SOCK_ADDR_REMOTE } else { RIGHT_SOCK_ADDR_LOCAL };
            match socket_at(fds@, fd, rights) {
                Err(e) => r == e,
                Ok(s) => if !in_bounds(size_ptr as int, 4, old(memory)@.len() as int) {
                    r == Errno::Fault
                } else {
                    let size = le_u32(old(memory)@.subrange(size_ptr as int, size_ptr + 4));
                    let known = match s@.state {
                        SocketState::Connected { local, remote: peer } => Some(if remote { peer } else { local }),
                        SocketState::Bound { local } => if remote { None } else { Some(local) },
                        SocketState::Listening { local, .. } => if remote { None } else { Some(local) },
                        SocketState::Unbound { .. } => None,
                    };
                    match known {
                        None => r == (if remote { Errno::Notconn } else { Errno::Inval }),
                        Some(a) => if size != wire_size(a@.v6) {
                            r == Errno::Inval
                        } else if !in_bounds(addr_ptr as int, size as int, old(memory)@.len() as int) {
                            r == Errno::Fault
                        } else {
                            r == Errno::Success && final(memory)@ == splice(
                                splice(old(memory)@, addr_ptr as int, wire_encode(a@)),
                                size_ptr as int,
                                le_bytes_u32(size),
                            )
                        },
                    }
                },
            }
        }),
{
    let rights = if remote { RIGHT_SOCK_ADDR_REMOTE } else { RIGHT_SOCK_ADDR_LOCAL };
    if let Err(e) = check_socket(fds, fd, rights) {
        return e;
    }
    proof {
        lemma_no_rights_needed(fds@, fd, rights);
    }
    let size = match memory.read_u32(size_ptr) {
        Ok(v) => v,
        Err(e) => return e,
    };
    let socket = get_socket(fds, fd).unwrap();
    let addr = if remote {
        socket.remote_address()
    } else {
        socket.local_address()
    };
    let addr = match addr {
        Ok(a) => a,
        Err(e) => return e,
    };
    let n = match encode_socket_addr(memory, addr_ptr, size, addr) {
        Ok(n) => n,
        Err(e) => return e,
    };
    let _in_bounds = memory.write_u32(size_ptr, n);
    Errno::Success
}

} // verus!
