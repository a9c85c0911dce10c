//! The lifecycle of one stream socket, independent of any executor:
//! `Unbound -> Bound -> {Listening, Connected}` (or `Unbound -> Connected`),
//! strictly forward, plus the socket's option flags and timeouts.

use vstd::prelude::*;
use crate::errno::Errno;
use crate::sockaddr::{SockAddr, AF_INET, AF_INET6};

verus! {

/// Socket type tag of a stream socket in the guest ABI.
pub const SOCK_STREAM: u16 = 6;
/// Socket type tag of a datagram socket in the guest ABI.
pub const SOCK_DGRAM: u16 = 5;
/// Number of boolean options a socket holds.
pub const NUM_FLAG_OPTIONS: usize = 11;
/// Number of timeout options a socket holds.
pub const NUM_TIME_OPTIONS: usize = 5;

/// Where a socket stands in its lifecycle.
#[derive(Clone, Copy, Debug, PartialEq, Eq)]
pub enum SocketState {
    /// Created for one address family, neither bound nor connected.
    Unbound { v6: bool },
    /// An address is reserved; not yet listening or connected.
    Bound { local: SockAddr },
    /// Waiting for inbound connections.
    Listening { local: SockAddr, backlog: u32 },
    /// An established stream.
    Connected { local: SockAddr, remote: SockAddr },
}

/// The options a socket can be asked for.
#[derive(Clone, Copy, Debug, PartialEq, Eq, Structural)]
pub enum SockOption {
    Noop,
    ReusePort,
    ReuseAddr,
    NoDelay,
    DontRoute,
    OnlyV6,
    Broadcast,
    MulticastLoopV4,
    MulticastLoopV6,
    Promiscuous,
    Listening,
    LastError,
    KeepAlive,
    Linger,
    OobInline,
    RecvBufSize,
    SendBufSize,
    RecvLowat,
    SendLowat,
    RecvTimeout,
    SendTimeout,
    ConnectTimeout,
    AcceptTimeout,
    Ttl,
    MulticastTtlV4,
    Type,
    Proto,
}

/// The slot of a boolean option, if the option is one.
pub open spec fn flag_slot(o: SockOption) -> Option<int> {
    match o {
        SockOption::ReusePort => Some(0),
        SockOption::ReuseAddr => Some(1),
        SockOption::NoDelay => Some(2),
        SockOption::DontRoute => Some(3),
        SockOption::OnlyV6 => Some(4),
        SockOption::Broadcast => Some(5),
        SockOption::MulticastLoopV4 => Some(6),
        SockOption::MulticastLoopV6 => Some(7),
        SockOption::Promiscuous => Some(8),
        SockOption::KeepAlive => Some(9),
        SockOption::OobInline => Some(10),
        _ => None,
    }
}

/// The slot of a timeout option, if the option is one.
pub open spec fn time_slot(o: SockOption) -> Option<int> {
    match o {
        SockOption::RecvTimeout => Some(0),
        SockOption::SendTimeout => Some(1),
        SockOption::ConnectTimeout => Some(2),
        SockOption::AcceptTimeout => Some(3),
        SockOption::Linger => Some(4),
        _ => None,
    }
}

fn flag_index(o: SockOption) -> (r: Option<usize>)
    ensures
        r matches Some(i) ==> flag_slot(o) == Some(i as int) && i < NUM_FLAG_OPTIONS,
        r is None ==> flag_slot(o) is None,
{
    match o {
        SockOption::ReusePort => Some(0),
        SockOption::ReuseAddr => Some(1),
        SockOption::NoDelay => Some(2),
        SockOption::DontRoute => Some(3),
        SockOption::OnlyV6 => Some(4),
        SockOption::Broadcast => Some(5),
        SockOption::MulticastLoopV4 => Some(6),
        SockOption::MulticastLoopV6 => Some(7),
        SockOption::Promiscuous => Some(8),
        SockOption::KeepAlive => Some(9),
        SockOption::OobInline => Some(10),
        _ => None,
    }
}

fn time_index(o: SockOption) -> (r: Option<usize>)
    ensures
        r matches Some(i) ==> time_slot(o) == Some(i as int) && i < NUM_TIME_OPTIONS,
        r is None ==> time_slot(o) is None,
{
    match o {
        SockOption::RecvTimeout => Some(0),
        SockOption::SendTimeout => Some(1),
        SockOption::ConnectTimeout => Some(2),
        SockOption::AcceptTimeout => Some(3),
        SockOption::Linger => Some(4),
        _ => None,
    }
}

/// A lifecycle transition that a syscall asks of a socket.
pub enum SocketOp {
    Bind { addr: SockAddr },
    Listen { local: SockAddr, backlog: u32 },
    Connect { local: SockAddr, remote: SockAddr },
}

pub open spec fn addr_v6(a: SockAddr) -> bool {
    a@.v6
}

/// The family a socket was created with; it never changes.
pub open spec fn state_v6(s: SocketState) -> bool {
    match s {
        SocketState::Unbound { v6 } => v6,
        SocketState::Bound { local } => addr_v6(local),
        SocketState::Listening { local, .. } => addr_v6(local),
        SocketState::Connected { local, .. } => addr_v6(local),
    }
}

/// The state that a transition leads to, or `None` where the transition
/// is not allowed from `s`.
pub open spec fn step(s: SocketState, op: SocketOp) -> Option<SocketState> {
    match op {
        SocketOp::Bind { addr } => match s {
            SocketState::Unbound { v6 } => if addr_v6(addr) == v6 {
                Some(SocketState::Bound { local: addr })
            } else {
                None
            },
            _ => None,
        },
        SocketOp::Listen { local, backlog } => match s {
            SocketState::Bound { local: bound } => if addr_v6(local) == addr_v6(bound) {
                Some(SocketState::Listening { local, backlog })
            } else {
                None
            },
            _ => None,
        },
        SocketOp::Connect { local, remote } => if addr_v6(local) == state_v6(s) && addr_v6(remote)
            == state_v6(s) {
            match s {
                SocketState::Unbound { .. } => Some(SocketState::Connected { local, remote }),
                SocketState::Bound { .. } => Some(SocketState::Connected { local, remote }),
                _ => None,
            }
        } else {
            None
        },
    }
}

/// How far along its lifecycle a state is.
pub open spec fn stage(s: SocketState) -> int {
    match s {
        SocketState::Unbound { .. } => 0,
        SocketState::Bound { .. } => 1,
        SocketState::Listening { .. } => 2,
        SocketState::Connected { .. } => 2,
    }
}

/// Every allowed transition is one edge of
/// `Unbound -> Bound -> {Listening, Connected}` or `Unbound -> Connected`:
/// it moves strictly forward, never back to `Unbound`, and keeps the
/// socket's family.
pub proof fn lemma_transitions_forward(s: SocketState, op: SocketOp)
    ensures
        step(s, op) matches Some(n) ==> {
            &&& stage(n) > stage(s)
            &&& !(n is Unbound)
            &&& state_v6(n) == state_v6(s)
            &&& (n is Bound ==> s is Unbound)
            &&& (n is Listening ==> s is Bound)
            &&& (n is Connected ==> (s is Unbound || s is Bound))
        },
        (s is Listening || s is Connected) ==> step(s, op) is None,
{
}

/// The abstract contents of a socket.
pub struct SocketModel {
    pub state: SocketState,
    pub flags: Seq<bool>,
    pub times: Seq<Option<u64>>,
}

/// One socket: its lifecycle state and its options.
#[derive(Clone, Debug)]
pub struct TcpSocket {
    state: SocketState,
    flags: Vec<bool>,
    times: Vec<Option<u64>>,
}

impl View for TcpSocket {
    type V = SocketModel;

    closed spec fn view(&self) -> SocketModel {
        SocketModel { state: self.state, flags: self.flags@, times: self.times@ }
    }
}

impl TcpSocket {
    /// The option tables have one slot per option.
    pub open spec fn wf(&self) -> bool {
        self@.flags.len() == NUM_FLAG_OPTIONS && self@.times.len() == NUM_TIME_OPTIONS
    }

    fn with_state(state: SocketState) -> (r: TcpSocket)
        ensures
            r.wf(),
            r@.state == state,
            forall|i: int| 0 <= i < NUM_FLAG_OPTIONS ==> !r@.flags[i],
            forall|i: int| 0 <= i < NUM_TIME_OPTIONS ==> r@.times[i] is None,
    {
        let mut flags: Vec<bool> = Vec::new();
        while flags.len() < NUM_FLAG_OPTIONS
            invariant
                flags.len() <= NUM_FLAG_OPTIONS,
                forall|i: int| 0 <= i < flags.len() ==> !flags@[i],
            decreases NUM_FLAG_OPTIONS - flags.len(),
        {
            flags.push(false);
        }
        let mut times: Vec<Option<u64>> = Vec::new();
        while times.len() < NUM_TIME_OPTIONS
            invariant
                times.len() <= NUM_TIME_OPTIONS,
                forall|i: int| 0 <= i < times.len() ==> times@[i] is None,
            decreases NUM_TIME_OPTIONS - times.len(),
        {
            times.push(None);
        }
        TcpSocket { state, flags, times }
    }

    /// A new socket of the given address family and type. Only stream
    /// sockets of IPv4 or IPv6 are supported; anything else is `Inval`.
    pub fn create(domain: u16, ty: u16) -> (r: Result<TcpSocket, Errno>)
        ensures
            (ty == SOCK_STREAM && (domain == AF_INET || domain == AF_INET6)) <==> r.is_ok(),
            r matches Ok(s) ==> s.wf() && s@.state == (SocketState::Unbound { v6: domain == AF_INET6 })
                && (forall|i: int| 0 <= i < NUM_FLAG_OPTIONS ==> !s@.flags[i])
                && (forall|i: int| 0 <= i < NUM_TIME_OPTIONS ==> s@.times[i] is None),
            r matches Err(e) ==> e == Errno::Inval,
    {
        if ty != SOCK_STREAM {
            return Err(Errno::Inval);
        }
        if domain == AF_INET {
            Ok(TcpSocket::with_state(SocketState::Unbound { v6: false }))
        } else if domain == AF_INET6 {
            Ok(TcpSocket::with_state(SocketState::Unbound { v6: true }))
        } else {
            Err(Errno::Inval)
        }
    }

    /// A socket for a connection taken from a listener's accept queue.
    pub fn accepted(local: SockAddr, remote: SockAddr) -> (r: TcpSocket)
        ensures
            r.wf(),
            r@.state == (SocketState::Connected { local, remote }),
            forall|i: int| 0 <= i < NUM_FLAG_OPTIONS ==> !r@.flags[i],
            forall|i: int| 0 <= i < NUM_TIME_OPTIONS ==> r@.times[i] is None,
    {
        TcpSocket::with_state(SocketState::Connected { local, remote })
    }

    pub fn state(&self) -> (r: SocketState)
        ensures
            r == self@.state,
    {
        self.state
    }

    /// Whether the socket was created for IPv6.
    pub fn is_v6(&self) -> (r: bool)
        ensures
            r == state_v6(self@.state),
    {
        match &self.state {
            SocketState::Unbound { v6 } => *v6,
            SocketState::Bound { local } => local.is_v6(),
            SocketState::Listening { local, .. } => local.is_v6(),
            SocketState::Connected { local, .. } => local.is_v6(),
        }
    }

    /// Applies a lifecycle transition. Where `step` allows none, the result
    /// is `Inval` and the socket is left as it was.
    pub fn transition(&mut self, op: SocketOp) -> (r: Result<(), Errno>)
        ensures
            step(old(self)@.state, op) matches Some(n) ==> r.is_ok() && final(self)@ == (SocketModel {
                state: n,
                ..old(self)@
            }),
            step(old(self)@.state, op) is None ==> r == Err::<(), Errno>(Errno::Inval) && *final(self)
                == *old(self),
    {
        let v6 = self.is_v6();
        let next = match op {
            SocketOp::Bind { addr } => match self.state {
                SocketState::Unbound { .. } => if addr.is_v6() == v6 {
                    Some(SocketState::Bound { local: addr })
                } else {
                    None
                },
                _ => None,
            },
            SocketOp::Listen { local, backlog } => match self.state {
                SocketState::Bound { .. } => if local.is_v6() == v6 {
                    Some(SocketState::Listening { local, backlog })
                } else {
                    None
                },
                _ => None,
            },
            SocketOp::Connect { local, remote } => if local.is_v6() == v6 && remote.is_v6() == v6 {
                match self.state {
                    SocketState::Unbound { .. } => Some(SocketState::Connected { local, remote }),
                    SocketState::Bound { .. } => Some(SocketState::Connected { local, remote }),
                    _ => None,
                }
            } else {
                None
            },
        };
        match next {
            Some(n) => {
                self.state = n;
                Ok(())
            },
            None => Err(Errno::Inval),
        }
    }

    /// Binds an unbound socket to an address of its own family.
    pub fn bind(&mut self, addr: SockAddr) -> (r: Result<(), Errno>)
        ensures
            step(old(self)@.state, SocketOp::Bind { addr }) matches Some(n) ==> r.is_ok() && final(self)@
                == (SocketModel { state: n, ..old(self)@ }),
            step(old(self)@.state, SocketOp::Bind { addr }) is None ==> r == Err::<(), Errno>(Errno::Inval)
                && *final(self) == *old(self),
    {
        self.transition(SocketOp::Bind { addr })
    }

    /// The address a listener has to be opened on: the bound address.
    /// Only a bound socket can start listening, else `Inval`.
    pub fn listen_address(&self) -> (r: Result<SockAddr, Errno>)
        ensures
            self@.state matches SocketState::Bound { local } ==> r == Ok::<SockAddr, Errno>(local),
            !(self@.state is Bound) ==> r == Err::<SockAddr, Errno>(Errno::Inval),
    {
        match self.state {
            SocketState::Bound { local } => Ok(local),
            _ => Err(Errno::Inval),
        }
    }

    /// Records that a listener was opened; `local` is the address the host
    /// gave it.
    pub fn listen(&mut self, local: SockAddr, backlog: u32) -> (r: Result<(), Errno>)
        ensures
            step(old(self)@.state, SocketOp::Listen { local, backlog }) matches Some(n) ==> r.is_ok()
                && final(self)@ == (SocketModel { state: n, ..old(self)@ }),
            step(old(self)@.state, SocketOp::Listen { local, backlog }) is None ==> r == Err::<
                (),
                Errno,
            >(Errno::Inval) && *final(self) == *old(self),
    {
        self.transition(SocketOp::Listen { local, backlog })
    }

    /// Whether a connection to `remote` may be attempted: the socket is
    /// unbound or bound, and `remote` is of its family. Else `Inval`.
    pub fn check_connect(&self, remote: SockAddr) -> (r: Result<(), Errno>)
        ensures
            r.is_ok() <==> ((self@.state is Unbound || self@.state is Bound) && addr_v6(remote)
                == state_v6(self@.state)),
            r matches Err(e) ==> e == Errno::Inval,
    {
        let v6 = self.is_v6();
        match self.state {
            SocketState::Unbound { .. } | SocketState::Bound { .. } => if remote.is_v6() == v6 {
                Ok(())
            } else {
                Err(Errno::Inval)
            },
            _ => Err(Errno::Inval),
        }
    }

    /// Records an established connection.
    pub fn connect(&mut self, local: SockAddr, remote: SockAddr) -> (r: Result<(), Errno>)
        ensures
            step(old(self)@.state, SocketOp::Connect { local, remote }) matches Some(n) ==> r.is_ok()
                && final(self)@ == (SocketModel { state: n, ..old(self)@ }),
            step(old(self)@.state, SocketOp::Connect { local, remote }) is None ==> r == Err::<
                (),
                Errno,
            >(Errno::Inval) && *final(self) == *old(self),
    {
        self.transition(SocketOp::Connect { local, remote })
    }

    /// Accepting is legal only on a listening socket, else `Inval`.
    pub fn check_accept(&self) -> (r: Result<(), Errno>)
        ensures
            r.is_ok() <==> self@.state is Listening,
            r matches Err(e) ==> e == Errno::Inval,
    {
        match self.state {
            SocketState::Listening { .. } => Ok(()),
            _ => Err(Errno::Inval),
        }
    }

    /// Sending and receiving are legal only on a connected socket, else
    /// `Inval`.
    pub fn check_stream(&self) -> (r: Result<(), Errno>)
        ensures
            r.is_ok() <==> self@.state is Connected,
            r matches Err(e) ==> e == Errno::Inval,
    {
        match self.state {
            SocketState::Connected { .. } => Ok(()),
            _ => Err(Errno::Inval),
        }
    }

    /// The local address: known once bound. An unbound socket gives `Inval`.
    pub fn local_address(&self) -> (r: Result<SockAddr, Errno>)
        ensures
            self@.state is Unbound ==> r == Err::<SockAddr, Errno>(Errno::Inval),
            self@.state matches SocketState::Bound { local } ==> r == Ok::<SockAddr, Errno>(local),
            self@.state matches SocketState::Listening { local, .. } ==> r == Ok::<SockAddr, Errno>(
                local,
            ),
            self@.state matches SocketState::Connected { local, .. } ==> r == Ok::<SockAddr, Errno>(
                local,
            ),
    {
        match self.state {
            SocketState::Unbound { .. } => Err(Errno::Inval),
            SocketState::Bound { local } => Ok(local),
            SocketState::Listening { local, .. } => Ok(local),
            SocketState::Connected { local, .. } => Ok(local),
        }
    }

    /// The peer's address: known only when connected, else `Notconn`.
    pub fn remote_address(&self) -> (r: Result<SockAddr, Errno>)
        ensures
            self@.state matches SocketState::Connected { remote, .. } ==> r == Ok::<SockAddr, Errno>(
                remote,
            ),
            !(self@.state is Connected) ==> r == Err::<SockAddr, Errno>(Errno::Notconn),
    {
        match self.state {
            SocketState::Connected { remote, .. } => Ok(remote),
            _ => Err(Errno::Notconn),
        }
    }

    /// The value of a boolean option; `false` until it is set. An option
    /// that is not boolean gives `Inval`.
    pub fn get_opt_flag(&self, opt: SockOption) -> (r: Result<bool, Errno>)
        requires
            self.wf(),
        ensures
            flag_slot(opt) matches Some(i) ==> r == Ok::<bool, Errno>(self@.flags[i]),
            flag_slot(opt) is None ==> r == Err::<bool, Errno>(Errno::Inval),
    {
        match flag_index(opt) {
            Some(i) => Ok(self.flags[i]),
            None => Err(Errno::Inval),
        }
    }

    /// Sets a boolean option; other options give `Inval` and change nothing.
    pub fn set_opt_flag(&mut self, opt: SockOption, flag: bool) -> (r: Result<(), Errno>)
        requires
            old(self).wf(),
        ensures
            final(self).wf(),
            flag_slot(opt) matches Some(i) ==> r.is_ok() && final(self)@ == (SocketModel {
                flags: old(self)@.flags.update(i, flag),
                ..old(self)@
            }),
            flag_slot(opt) is None ==> r == Err::<(), Errno>(Errno::Inval) && *final(self) == *old(self),
    {
        match flag_index(opt) {
            Some(i) => {
                self.flags.set(i, flag);
                Ok(())
            },
            None => Err(Errno::Inval),
        }
    }

    /// The value of a timeout option (`None`: no timeout). Other options
    /// give `Inval`.
    pub fn get_opt_time(&self, opt: SockOption) -> (r: Result<Option<u64>, Errno>)
        requires
            self.wf(),
        ensures
            time_slot(opt) matches Some(i) ==> r == Ok::<Option<u64>, Errno>(self@.times[i]),
            time_slot(opt) is None ==> r == Err::<Option<u64>, Errno>(Errno::Inval),
    {
        match time_index(opt) {
            Some(i) => Ok(self.times[i]),
            None => Err(Errno::Inval),
        }
    }

    /// Sets a timeout option, in nanoseconds; other options give `Inval` and
    /// change nothing.
    pub fn set_opt_time(&mut self, opt: SockOption, time: Option<u64>) -> (r: Result<(), Errno>)
        requires
            old(self).wf(),
        ensures
            final(self).wf(),
            time_slot(opt) matches Some(i) ==> r.is_ok() && final(self)@ == (SocketModel {
                times: old(self)@.times.update(i, time),
                ..old(self)@
            }),
            time_slot(opt) is None ==> r == Err::<(), Errno>(Errno::Inval) && *final(self) == *old(self),
    {
        match time_index(opt) {
            Some(i) => {
                self.times.set(i, time);
                Ok(())
            },
            None => Err(Errno::Inval),
        }
    }
}

} // verus!
