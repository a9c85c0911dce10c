//! Enqueueing one-shot operations. What can be decided on the calling
//! thread is decided here: the descriptor, its rights and state, and the
//! guest-memory arguments. An operation that needs no suspension completes
//! on the local queue with token zero; any other gets a fresh cancellation
//! token and is handed back as work for the runtime to run, whose outcome
//! comes back through `ExecutorState::finish_oneshot`.

use vstd::prelude::*;
use futures::future::AbortHandle;
use crate::errno::{Errno, HostErrorKind, host_errno, from_tokio_error};
use crate::memory::{GuestMemory, in_bounds, splice, le_bytes_u32};
use crate::executor::{ExecutorState, ExecutorModel, CancellationToken, Completion};
use crate::fd_table::{FdTable, RIGHT_SOCK_RECV, RIGHT_SOCK_SEND, RIGHT_SOCK_ACCEPT, RIGHT_SOCK_CONNECT};
use crate::iovec::{IoVec, read_iovecs, check_iovecs, gather, scatter, iovec_at, all_in_bounds, gathered, scattered, placed};
use crate::sockaddr::{SockAddr, decode_outcome, AF_INET, AF_INET6};
use crate::socket::{SocketState, state_v6};
use crate::syscalls::socket_at;
use crate::sockaddr::decode_socket_addr;

verus! {

/// A one-shot operation as the guest asked for it.
#[derive(Clone, Copy, Debug, PartialEq, Eq, Structural)]
pub enum AsyncOneshotOperation {
    /// Completes at once.
    Nop,
    /// Completes after a delay, in nanoseconds.
    Delay { nanos: u64 },
    /// Receives into the buffer list at `ri_data` and stores the byte count
    /// at `ro_datalen`.
    Read { fd: u32, ri_data: u32, ri_data_len: u32, ro_datalen: u32 },
    /// Sends the buffer list at `si_data` and stores the byte count at
    /// `so_datalen`.
    Write { fd: u32, si_data: u32, si_data_len: u32, so_datalen: u32 },
    /// Waits for one inbound connection on a listening socket and puts it
    /// on the accept hand-off queue.
    SocketPreAccept { fd: u32 },
    /// Connects to the address in the wire structure at `sockaddr_ptr`.
    SocketConnect { fd: u32, sockaddr_ptr: u32, sockaddr_size: u32 },
    /// Resolves the host name of `name_len` bytes at `name_ptr` and writes
    /// up to `output_size` addresses of `family` (16 bytes each) at
    /// `output_ptr`, and their number at `output_count_ptr`.
    DnsLookup { name_ptr: u32, name_len: u32, family: u16, output_ptr: u32, output_count_ptr: u32, output_size: u32 },
}

/// The work the runtime has to run for an enqueued operation.
#[derive(Debug)]
pub enum OneshotWork {
    Delay { nanos: u64 },
    Read { fd: u32, iovs: Vec<IoVec>, ro_datalen: u32 },
    Write { fd: u32, data: Vec<u8>, so_datalen: u32 },
    Accept { fd: u32 },
    Connect { fd: u32, addr: SockAddr },
    DnsLookup { name: Vec<u8>, family: u16, output_ptr: u32, output_count_ptr: u32, output_size: u32 },
}

/// Operations with several completions.
#[derive(Clone, Copy, Debug)]
pub enum AsyncStreamOperation {
    /// One completion per inbound connection of a listening socket.
    SocketListen { fd: u32 },
}

/// Enqueues a streaming operation. This executor takes none (accepting
/// goes through `SocketPreAccept` and the hand-off queue), so every request
/// is refused with `Inval`.
pub fn enqueue_stream(op: AsyncStreamOperation, user_context: u64) -> (r: Result<CancellationToken, Errno>)
    ensures
        r == Err::<CancellationToken, Errno>(Errno::Inval),
{
    Err(Errno::Inval)
}

/// The error that enqueueing `op` is refused with, if any: what is wrong
/// before any work starts (descriptor, rights, guest memory, address size).
pub open spec fn oneshot_refusal(m: Seq<u8>, t: Seq<Option<crate::fd_table::FdEntry>>, op: AsyncOneshotOperation) -> Option<Errno> {
    match op {
        AsyncOneshotOperation::Nop => None,
        AsyncOneshotOperation::Delay { .. } => None,
        AsyncOneshotOperation::Read { fd, ri_data, ri_data_len, .. } => match socket_at(t, fd, RIGHT_SOCK_RECV) {
            Err(e) => Some(e),
            Ok(s) => if !(8 * ri_data_len <= u32::MAX && in_bounds(ri_data as int, 8 * ri_data_len, m.len() as int)) {
                Some(Errno::Fault)
            } else if !all_in_bounds(Seq::new(ri_data_len as nat, |i: int| iovec_at(m, ri_data as int, i)), m.len() as int) {
                Some(Errno::Fault)
            } else {
                None
            },
        },
        AsyncOneshotOperation::Write { fd, si_data, si_data_len, .. } => match socket_at(t, fd, RIGHT_SOCK_SEND) {
            Err(e) => Some(e),
            Ok(s) => if !(8 * si_data_len <= u32::MAX && in_bounds(si_data as int, 8 * si_data_len, m.len() as int)) {
                Some(Errno::Fault)
            } else if !all_in_bounds(Seq::new(si_data_len as nat, |i: int| iovec_at(m, si_data as int, i)), m.len() as int) {
                Some(Errno::Fault)
            } else {
                None
            },
        },
        AsyncOneshotOperation::SocketPreAccept { fd } => match socket_at(t, fd, RIGHT_SOCK_ACCEPT) {
            Err(e) => Some(e),
            Ok(s) => None,
        },
        AsyncOneshotOperation::DnsLookup { name_ptr, name_len, .. } => if in_bounds(name_ptr as int, name_len as int, m.len() as int) {
            None
        } else {
            Some(Errno::Fault)
        },
        AsyncOneshotOperation::SocketConnect { fd, sockaddr_ptr, sockaddr_size } => match socket_at(t, fd, RIGHT_SOCK_CONNECT) {
            Err(e) => Some(e),
            Ok(s) => match decode_outcome(m, sockaddr_ptr, sockaddr_size) {
                Err(e) => Some(e),
                Ok(a) => None,
            },
        },
    }
}

/// Whether the socket `op` works on is in a state the operation cannot run
/// in (meaningful when `oneshot_refusal` is `None`): a send or receive on a
/// socket that is not connected, waiting for a connection on one that is
/// not listening, connecting one that is listening or connected already,
/// or to an address of the other family. Such an operation completes at
/// once with `Inval`.
pub open spec fn oneshot_wrong_state(m: Seq<u8>, t: Seq<Option<crate::fd_table::FdEntry>>, op: AsyncOneshotOperation) -> bool {
    match op {
        AsyncOneshotOperation::Read { fd, .. } => !(socket_at(t, fd, RIGHT_SOCK_RECV)->Ok_0@.state is Connected),
        AsyncOneshotOperation::Write { fd, .. } => !(socket_at(t, fd, RIGHT_SOCK_SEND)->Ok_0@.state is Connected),
        AsyncOneshotOperation::SocketPreAccept { fd } => !(socket_at(t, fd, RIGHT_SOCK_ACCEPT)->Ok_0@.state is Listening),
        AsyncOneshotOperation::SocketConnect { fd, sockaddr_ptr, sockaddr_size } => {
            let st = socket_at(t, fd, RIGHT_SOCK_CONNECT)->Ok_0@.state;
            !((st is Unbound || st is Bound) && decode_outcome(m, sockaddr_ptr, sockaddr_size)->Ok_0.v6 == state_v6(st))
        },
        _ => false,
    }
}

/// The lifecycle state of the socket at `fd`, resolved with `rights`.
fn socket_state(fds: &FdTable, fd: u32, rights: u64) -> (r: Result<SocketState, Errno>)
    ensures
        socket_at(fds@, fd, rights) matches Err(e) ==> r == Err::<SocketState, Errno>(e),
        socket_at(fds@, fd, rights) matches Ok(s) ==> r == Ok::<SocketState, Errno>(s@.state),
{
    match fds.get(fd) {
        None => Err(Errno::Badf),
        Some(e) => {
            if e.rights_base & rights != rights {
                return Err(Errno::Access);
            }
            match &e.resource {
                crate::fd_table::Resource::Socket { socket } => Ok(socket.state()),
                _ => Err(Errno::Notsock),
            }
        },
    }
}

/// Reads and checks a buffer list.
fn buffer_list(memory: &GuestMemory, ptr: u32, count: u32) -> (r: Result<Vec<IoVec>, Errno>)
    ensures
        !(8 * count <= u32::MAX && in_bounds(ptr as int, 8 * count, memory@.len() as int)) ==> r == Err::<Vec<IoVec>, Errno>(Errno::Fault),
        (8 * count <= u32::MAX && in_bounds(ptr as int, 8 * count, memory@.len() as int)) ==> {
            let list = Seq::new(count as nat, |i: int| iovec_at(memory@, ptr as int, i));
            &&& (r.is_ok() <==> all_in_bounds(list, memory@.len() as int))
            &&& (r matches Ok(v) ==> v@ == list)
            &&& (r matches Err(e) ==> e == Errno::Fault)
        },
{
    let iovs = read_iovecs(memory, ptr, count)?;
    assert(iovs@ =~= Seq::new(count as nat, |i: int| iovec_at(memory@, ptr as int, i)));
    check_iovecs(memory, &iovs)?;
    Ok(iovs)
}

/// Enqueues a one-shot operation with the caller's `user_context`.
/// Refused operations (see `oneshot_refusal`) change nothing. `Nop`
/// completes on the local queue with `Success`, and an operation on a
/// socket in the wrong state (see `oneshot_wrong_state`) with `Inval`: both
/// with token zero and no work, so a later `wait` yields the completion.
/// Any other operation gets a fresh token, registered with `handle` for
/// cancellation, and is handed back as work: a send carries the gathered
/// bytes, a receive its buffer list, a connect the decoded address.
pub fn enqueue_oneshot(
    exec: &mut ExecutorState,
    memory: &GuestMemory,
    fds: &FdTable,
    op: AsyncOneshotOperation,
    user_context: u64,
    handle: AbortHandle,
) -> (r: Result<(CancellationToken, Option<OneshotWork>), Errno>)
    requires
        old(exec).wf(),
    ensures
        final(exec).wf(),
        oneshot_refusal(memory@, fds@, op) matches Some(e) ==> r == Err::<(CancellationToken, Option<OneshotWork>), Errno>(e) && final(exec)@ == old(exec)@,
        oneshot_refusal(memory@, fds@, op) is None && (op is Nop || oneshot_wrong_state(memory@, fds@, op)) ==> (
            r matches Ok((t, w)) && t.0 == 0 && w is None && final(exec)@ == (ExecutorModel {
                local: old(exec)@.local.push(Completion { result: if op is Nop { Errno::Success } else { Errno::Inval }, user_context }),
                ..old(exec)@
            })),
        !(op is Nop) && oneshot_refusal(memory@, fds@, op) is None && !oneshot_wrong_state(memory@, fds@, op) ==> {
            &&& old(exec)@.next < u64::MAX ==> r is Ok
            &&& r matches Err(e) ==> e == Errno::Inval && final(exec)@ == old(exec)@
        },
        !(op is Nop) && !oneshot_wrong_state(memory@, fds@, op) && r is Ok ==> {
            let t = r->Ok_0.0;
            &&& t.0 == old(exec)@.next && t.0 != 0 && !old(exec)@.ongoing.contains(t.0)
            &&& final(exec)@ == (ExecutorModel { ongoing: old(exec)@.ongoing.insert(t.0), next: (old(exec)@.next + 1) as u64, ..old(exec)@ })
            &&& match (op, r->Ok_0.1) {
                (AsyncOneshotOperation::Delay { nanos }, Some(OneshotWork::Delay { nanos: n })) => n == nanos,
                (AsyncOneshotOperation::Read { fd, ri_data, ri_data_len, ro_datalen }, Some(OneshotWork::Read { fd: f, iovs, ro_datalen: o })) =>
                    f == fd && o == ro_datalen && iovs@ == Seq::new(ri_data_len as nat, |i: int| iovec_at(memory@, ri_data as int, i)),
                (AsyncOneshotOperation::Write { fd, si_data, si_data_len, so_datalen }, Some(OneshotWork::Write { fd: f, data, so_datalen: o })) =>
                    f == fd && o == so_datalen && data@ == gathered(memory@, Seq::new(si_data_len as nat, |i: int| iovec_at(memory@, si_data as int, i))),
                (AsyncOneshotOperation::SocketPreAccept { fd }, Some(OneshotWork::Accept { fd: f })) => f == fd,
                (AsyncOneshotOperation::SocketConnect { fd, sockaddr_ptr, sockaddr_size }, Some(OneshotWork::Connect { fd: f, addr })) =>
                    f == fd && decode_outcome(memory@, sockaddr_ptr, sockaddr_size) == Ok::<crate::sockaddr::AddrModel, Errno>(addr@),
                (AsyncOneshotOperation::DnsLookup { name_ptr, name_len, family, output_ptr, output_count_ptr, output_size },
                 Some(OneshotWork::DnsLookup { name, family: fa, output_ptr: o, output_count_ptr: oc, output_size: os })) =>
                    name@ == memory@.subrange(name_ptr as int, name_ptr + name_len) && fa == family && o == output_ptr
                        && oc == output_count_ptr && os == output_size,
                _ => false,
            }
        },
{
    let work: Option<OneshotWork> = match op {
        AsyncOneshotOperation::Nop => {
            let t = exec.enqueue_immediate(Errno::Success, user_context);
            return Ok((t, None));
        },
        AsyncOneshotOperation::Delay { nanos } => Some(OneshotWork::Delay { nanos }),
        AsyncOneshotOperation::Read { fd, ri_data, ri_data_len, ro_datalen } => {
            let st = socket_state(fds, fd, RIGHT_SOCK_RECV)?;
            let iovs = buffer_list(memory, ri_data, ri_data_len)?;
            match st {
                SocketState::Connected { .. } => Some(OneshotWork::Read { fd, iovs, ro_datalen }),
                _ => None,
            }
        },
        AsyncOneshotOperation::Write { fd, si_data, si_data_len, so_datalen } => {
            let st = socket_state(fds, fd, RIGHT_SOCK_SEND)?;
            let iovs = buffer_list(memory, si_data, si_data_len)?;
            match st {
                SocketState::Connected { .. } => {
                    let data = gather(memory, &iovs);
                    Some(OneshotWork::Write { fd, data, so_datalen })
                },
                _ => None,
            }
        },
        AsyncOneshotOperation::SocketPreAccept { fd } => {
            let st = socket_state(fds, fd, RIGHT_SOCK_ACCEPT)?;
            match st {
                SocketState::Listening { .. } => Some(OneshotWork::Accept { fd }),
                _ => None,
            }
        },
        AsyncOneshotOperation::SocketConnect { fd, sockaddr_ptr, sockaddr_size } => {
            let st = socket_state(fds, fd, RIGHT_SOCK_CONNECT)?;
            let addr = decode_socket_addr(memory, sockaddr_ptr, sockaddr_size)?;
            let v6 = match st {
                SocketState::Unbound { v6 } => Some(v6),
                SocketState::Bound { local } => Some(local.is_v6()),
                _ => None,
            };
            match v6 {
                Some(v) => if v == addr.is_v6() {
                    Some(OneshotWork::Connect { fd, addr })
                } else {
                    None
                },
                None => None,
            }
        },
        AsyncOneshotOperation::DnsLookup { name_ptr, name_len, family, output_ptr, output_count_ptr, output_size } => {
            let name = memory.read_bytes(name_ptr, name_len)?;
            Some(OneshotWork::DnsLookup { name, family, output_ptr, output_count_ptr, output_size })
        },
    };
    match work {
        Some(w) => {
            let t = exec.spawn_oneshot(handle)?;
            Ok((t, Some(w)))
        },
        None => {
            let t = exec.enqueue_immediate(Errno::Inval, user_context);
            Ok((t, None))
        },
    }
}

/// Completes a receive: scatters the bytes that arrived across the buffer
/// list and stores how many were placed (four bytes) at `ro_datalen`.
/// `Fault` where that count lies outside memory, or a buffer does.
pub fn read_complete(memory: &mut GuestMemory, iovs: &Vec<IoVec>, data: &Vec<u8>, ro_datalen: u32) -> (r: Errno)
    ensures
        !all_in_bounds(iovs@, old(memory)@.len() as int) || !in_bounds(ro_datalen as int, 4, old(memory)@.len() as int) ==> r == Errno::Fault && *final(memory) == *old(memory),
        all_in_bounds(iovs@, old(memory)@.len() as int) && in_bounds(ro_datalen as int, 4, old(memory)@.len() as int) ==> {
            &&& placed(iovs@, data@.len()) <= u32::MAX ==> r == Errno::Success && final(memory)@ == splice(
                scattered(old(memory)@, iovs@, data@), ro_datalen as int, le_bytes_u32(placed(iovs@, data@.len()) as u32))
            &&& placed(iovs@, data@.len()) > u32::MAX ==> r == Errno::Inval && *final(memory) == *old(memory)
        },
{
    if check_iovecs(memory, iovs).is_err() {
        return Errno::Fault;
    }
    if ro_datalen as usize > memory.size() || 4 > memory.size() - ro_datalen as usize {
        return Errno::Fault;
    }
    proof {
        lemma_placed_bound(iovs@, data@.len());
        lemma_scattered_len(memory@, iovs@, data@);
    }
    if data.len() as u64 > u32::MAX as u64 && placed_exceeds(iovs, data.len()) {
        return Errno::Inval;
    }
    let n = scatter(memory, iovs, data);
    match memory.write_u32(ro_datalen, n as u32) {
        Ok(()) => Errno::Success,
        Err(e) => e,
    }
}

proof fn lemma_scattered_len(m: Seq<u8>, iovs: Seq<IoVec>, data: Seq<u8>)
    requires
        all_in_bounds(iovs, m.len() as int),
    ensures
        scattered(m, iovs, data).len() == m.len(),
    decreases iovs.len(),
{
    if iovs.len() > 0 {
        let n = if data.len() < iovs[0].buf_len { data.len() as int } else { iovs[0].buf_len as int };
        let m2 = splice(m, iovs[0].buf as int, data.subrange(0, n));
        assert(in_bounds(iovs[0].buf as int, iovs[0].buf_len as int, m.len() as int));
        assert(m2.len() == m.len());
        assert forall|i: int| 0 <= i < iovs.drop_first().len() implies in_bounds((#[trigger] iovs.drop_first()[i]).buf as int, iovs.drop_first()[i].buf_len as int, m2.len() as int) by {
            assert(iovs.drop_first()[i] == iovs[i + 1]);
        }
        lemma_scattered_len(m2, iovs.drop_first(), data.subrange(n, data.len() as int));
    }
}

proof fn lemma_placed_bound(iovs: Seq<IoVec>, len: nat)
    ensures
        placed(iovs, len) <= len,
    decreases iovs.len(),
{
    if iovs.len() > 0 {
        let n: nat = if len < iovs[0].buf_len { len } else { iovs[0].buf_len as nat };
        lemma_placed_bound(iovs.drop_first(), (len - n) as nat);
    }
}

/// Whether the buffers would take more than `u32::MAX` bytes of a message
/// of `len` bytes.
fn placed_exceeds(iovs: &Vec<IoVec>, len: usize) -> (r: bool)
    ensures
        r == (placed(iovs@, len as nat) > u32::MAX),
{
    let mut i: usize = 0;
    let mut left: usize = len;
    let mut total: u64 = 0;
    assert(iovs@.subrange(0, iovs@.len() as int) =~= iovs@);
    while i < iovs.len()
        invariant
            i <= iovs.len(),
            left <= len,
            total + placed(iovs@.subrange(i as int, iovs@.len() as int), left as nat) == placed(iovs@, len as nat),
            total <= len - left,
        decreases iovs.len() - i,
    {
        let v = iovs[i];
        let n: usize = if left < v.buf_len as usize { left } else { v.buf_len as usize };
        assert(iovs@.subrange(i as int, iovs@.len() as int).drop_first() =~= iovs@.subrange(i + 1, iovs@.len() as int));
        total = total + n as u64;
        left = left - n;
        i = i + 1;
    }
    total > u32::MAX as u64
}

/// Completes a send: stores the count of bytes the host took (four bytes)
/// at `so_datalen`, or reports the host's error.
pub fn write_complete(memory: &mut GuestMemory, so_datalen: u32, host: Result<u32, HostErrorKind>) -> (r: Errno)
    ensures
        host matches Err(k) ==> r == host_errno(k) && *final(memory) == *old(memory),
        host matches Ok(n) ==> if in_bounds(so_datalen as int, 4, old(memory)@.len() as int) {
            r == Errno::Success && final(memory)@ == splice(old(memory)@, so_datalen as int, le_bytes_u32(n))
        } else {
            r == Errno::Fault && *final(memory) == *old(memory)
        },
{
    match host {
        Err(k) => from_tokio_error(k),
        Ok(n) => match memory.write_u32(so_datalen, n) {
            Ok(()) => Errno::Success,
            Err(e) => e,
        },
    }
}

/// Whether a resolved address is of the family asked for.
pub open spec fn family_matches(a: SockAddr, family: u16) -> bool {
    (family == AF_INET && !a@.v6) || (family == AF_INET6 && a@.v6)
}

/// The resolved addresses that are reported: those of `family`, in order,
/// at most `max` of them.
pub open spec fn dns_selected(rs: Seq<SockAddr>, family: u16, max: nat) -> Seq<SockAddr>
    decreases rs.len(),
{
    if rs.len() == 0 || max == 0 {
        Seq::empty()
    } else if family_matches(rs[0], family) {
        seq![rs[0]] + dns_selected(rs.drop_first(), family, (max - 1) as nat)
    } else {
        dns_selected(rs.drop_first(), family, max)
    }
}

/// One reported address: its bytes as a 128-bit little-endian integer
/// whose value is the address read in network order (an IPv4 address
/// fills the low 32 bits).
pub open spec fn dns_entry(a: SockAddr) -> Seq<u8> {
    let ip = a@.ip;
    Seq::new(16, |i: int| if i < ip.len() { ip[ip.len() - 1 - i] } else { 0u8 })
}

/// The reported addresses one after the other.
pub open spec fn dns_entries(sel: Seq<SockAddr>) -> Seq<u8>
    decreases sel.len(),
{
    if sel.len() == 0 {
        Seq::empty()
    } else {
        dns_entries(sel.drop_last()) + dns_entry(sel.last())
    }
}

proof fn lemma_dns_entries_len(sel: Seq<SockAddr>)
    ensures
        dns_entries(sel).len() == 16 * sel.len(),
    decreases sel.len(),
{
    if sel.len() > 0 {
        lemma_dns_entries_len(sel.drop_last());
    }
}

proof fn lemma_dns_selected_len(rs: Seq<SockAddr>, family: u16, max: nat)
    ensures
        dns_selected(rs, family, max).len() <= max,
    decreases rs.len(),
{
    if rs.len() > 0 && max > 0 {
        if family_matches(rs[0], family) {
            lemma_dns_selected_len(rs.drop_first(), family, (max - 1) as nat);
        } else {
            lemma_dns_selected_len(rs.drop_first(), family, max);
        }
    }
}

fn push_dns_entry(out: &mut Vec<u8>, a: &SockAddr)
    ensures
        final(out)@ == old(out)@ + dns_entry(*a),
{
    let ghost start = out@;
    match a {
        SockAddr::V4 { ip, .. } => {
            assert(a@.ip == ip@ && ip@.len() == 4);
            out.push(ip[3]);
            out.push(ip[2]);
            out.push(ip[1]);
            out.push(ip[0]);
            let mut j: usize = 4;
            while j < 16
                invariant
                    4 <= j <= 16,
                    a@.ip == ip@,
                    ip@.len() == 4,
                    out@.len() == start.len() + j,
                    forall|k: int| 0 <= k < start.len() ==> out@[k] == start[k],
                    forall|k: int| 0 <= k < j ==> #[trigger] out@[start.len() + k] == dns_entry(*a)[k],
                decreases 16 - j,
            {
                let ghost before = out@;
                out.push(0);
                assert forall|k: int| 0 <= k < j + 1 implies #[trigger] out@[start.len() + k] == dns_entry(*a)[k] by {
                    if k < j {
                        assert(out@[start.len() + k] == before[start.len() + k]);
                    }
                }
                j = j + 1;
            }
        },
        SockAddr::V6 { ip, .. } => {
            assert(a@.ip == ip@ && ip@.len() == 16);
            let mut j: usize = 0;
            while j < 16
                invariant
                    j <= 16,
                    a@.ip == ip@,
                    ip@.len() == 16,
                    out@.len() == start.len() + j,
                    forall|k: int| 0 <= k < start.len() ==> out@[k] == start[k],
                    forall|k: int| 0 <= k < j ==> #[trigger] out@[start.len() + k] == dns_entry(*a)[k],
                decreases 16 - j,
            {
                let ghost before = out@;
                out.push(ip[15 - j]);
                assert forall|k: int| 0 <= k < j + 1 implies #[trigger] out@[start.len() + k] == dns_entry(*a)[k] by {
                    if k < j {
                        assert(out@[start.len() + k] == before[start.len() + k]);
                    }
                }
                j = j + 1;
            }
        },
    }
    assert forall|k: int| 0 <= k < out@.len() implies out@[k] == (start + dns_entry(*a))[k] by {
        if k >= start.len() {
            assert(out@[start.len() + (k - start.len())] == dns_entry(*a)[k - start.len()]);
        }
    }
    assert(out@ =~= start + dns_entry(*a));
}

/// Completes a name lookup with the host's `results`: writes the addresses
/// of `family` among them, in order and at most `output_size` of them, at
/// `output_ptr` (16 bytes each, see `dns_entry`), then their number (four
/// bytes) at `output_count_ptr`. `Fault`, with nothing written, where the
/// output array or the count lies outside memory.
pub fn dns_lookup_complete(
    memory: &mut GuestMemory,
    family: u16,
    results: &Vec<SockAddr>,
    output_ptr: u32,
    output_count_ptr: u32,
    output_size: u32,
) -> (r: Errno)
    ensures
        !in_bounds(output_ptr as int, 16 * output_size, old(memory)@.len() as int)
            || !in_bounds(output_count_ptr as int, 4, old(memory)@.len() as int) ==> r == Errno::Fault && *final(memory) == *old(memory),
        in_bounds(output_ptr as int, 16 * output_size, old(memory)@.len() as int)
            && in_bounds(output_count_ptr as int, 4, old(memory)@.len() as int) ==> {
            let sel = dns_selected(results@, family, output_size as nat);
            &&& r == Errno::Success
            &&& final(memory)@ == splice(splice(old(memory)@, output_ptr as int, dns_entries(sel)), output_count_ptr as int, le_bytes_u32(sel.len() as u32))
        },
{
    let size = memory.size();
    if output_ptr as usize > size || (output_size as usize) > (size - output_ptr as usize) / 16 {
        return Errno::Fault;
    }
    if output_count_ptr as usize > size || 4 > size - output_count_ptr as usize {
        return Errno::Fault;
    }
    let mut bytes: Vec<u8> = Vec::new();
    let mut count: u32 = 0;
    let mut i: usize = 0;
    let ghost mut sel: Seq<SockAddr> = Seq::empty();
    assert(results@.subrange(0, results@.len() as int) =~= results@);
    while i < results.len() && count < output_size
        invariant
            i <= results.len(),
            count <= output_size,
            count == sel.len(),
            bytes@ == dns_entries(sel),
            sel + dns_selected(results@.subrange(i as int, results@.len() as int), family, (output_size - count) as nat)
                == dns_selected(results@, family, output_size as nat),
        decreases results.len() - i,
    {
        let a = results[i];
        let ghost rest = results@.subrange(i as int, results@.len() as int);
        assert(rest[0] == a);
        assert(rest.drop_first() =~= results@.subrange(i + 1, results@.len() as int));
        let fits = if family == AF_INET {
            !a.is_v6()
        } else if family == AF_INET6 {
            a.is_v6()
        } else {
            false
        };
        if fits {
            push_dns_entry(&mut bytes, &a);
            proof {
                let old_sel = sel;
                sel = sel.push(a);
                assert(sel.drop_last() =~= old_sel);
                assert(old_sel + (seq![a] + dns_selected(rest.drop_first(), family, (output_size - count - 1) as nat))
                    =~= sel + dns_selected(rest.drop_first(), family, (output_size - count - 1) as nat));
            }
            count = count + 1;
        }
        i = i + 1;
    }
    proof {
        let rest = results@.subrange(i as int, results@.len() as int);
        assert(dns_selected(rest, family, (output_size - count) as nat) =~= Seq::<SockAddr>::empty());
        assert(sel + Seq::<SockAddr>::empty() =~= sel);
        lemma_dns_entries_len(sel);
    }
    let _written = memory.write_bytes(output_ptr, bytes.as_slice());
    let _counted = memory.write_u32(output_count_ptr, count);
    Errno::Success
}

} // verus!
