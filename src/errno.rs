//! Result codes handed back to the guest, and the mapping of host I/O error
//! kinds onto them.

use vstd::prelude::*;

verus! {

/// A POSIX-style result code as seen by the guest.
#[derive(Clone, Copy, Debug, PartialEq, Eq, Structural)]
pub enum Errno {
    Success,
    Access,
    Addrinuse,
    Addrnotavail,
    Again,
    Badf,
    Canceled,
    Connaborted,
    Connrefused,
    Connreset,
    Exist,
    Fault,
    Inval,
    Io,
    Isdir,
    Noent,
    Notconn,
    Notsock,
    Perm,
    Pipe,
    Timedout,
}

pub open spec fn errno_code(e: Errno) -> u16 {
    match e {
        Errno::Success => 0,
        Errno::Access => 2,
        Errno::Addrinuse => 3,
        Errno::Addrnotavail => 4,
        Errno::Again => 6,
        Errno::Badf => 8,
        Errno::Canceled => 11,
        Errno::Connaborted => 13,
        Errno::Connrefused => 14,
        Errno::Connreset => 15,
        Errno::Exist => 20,
        Errno::Fault => 21,
        Errno::Inval => 28,
        Errno::Io => 29,
        Errno::Isdir => 31,
        Errno::Noent => 44,
        Errno::Notconn => 53,
        Errno::Notsock => 57,
        Errno::Perm => 63,
        Errno::Pipe => 64,
        Errno::Timedout => 73,
    }
}

impl Errno {
    /// The numeric value of this code in the guest ABI.
    pub fn code(&self) -> (r: u16)
        ensures
            r == errno_code(*self),
    {
        match self {
            Errno::Success => 0,
            Errno::Access => 2,
            Errno::Addrinuse => 3,
            Errno::Addrnotavail => 4,
            Errno::Again => 6,
            Errno::Badf => 8,
            Errno::Canceled => 11,
            Errno::Connaborted => 13,
            Errno::Connrefused => 14,
            Errno::Connreset => 15,
            Errno::Exist => 20,
            Errno::Fault => 21,
            Errno::Inval => 28,
            Errno::Io => 29,
            Errno::Isdir => 31,
            Errno::Noent => 44,
            Errno::Notconn => 53,
            Errno::Notsock => 57,
            Errno::Perm => 63,
            Errno::Pipe => 64,
            Errno::Timedout => 73,
        }
    }
}

/// The kind of an error reported by the host networking layer.
#[derive(Clone, Copy, Debug, PartialEq, Eq, Structural)]
pub enum HostErrorKind {
    NotFound,
    PermissionDenied,
    ConnectionRefused,
    ConnectionReset,
    ConnectionAborted,
    NotConnected,
    AddrInUse,
    AddrNotAvailable,
    BrokenPipe,
    AlreadyExists,
    WouldBlock,
    InvalidInput,
    InvalidData,
    TimedOut,
    WriteZero,
    Interrupted,
    UnexpectedEof,
    Other,
}

/// The result code that a host error kind is reported as.
pub open spec fn host_errno(k: HostErrorKind) -> Errno {
    match k {
        HostErrorKind::NotFound => Errno::Exist,
        HostErrorKind::PermissionDenied => Errno::Perm,
        HostErrorKind::ConnectionRefused => Errno::Connrefused,
        HostErrorKind::ConnectionReset => Errno::Connreset,
        HostErrorKind::ConnectionAborted => Errno::Connaborted,
        HostErrorKind::NotConnected => Errno::Notconn,
        HostErrorKind::AddrInUse => Errno::Addrinuse,
        HostErrorKind::AddrNotAvailable => Errno::Addrnotavail,
        HostErrorKind::BrokenPipe => Errno::Pipe,
        HostErrorKind::AlreadyExists => Errno::Exist,
        HostErrorKind::WouldBlock => Errno::Again,
        HostErrorKind::InvalidInput => Errno::Inval,
        HostErrorKind::InvalidData => Errno::Inval,
        HostErrorKind::TimedOut => Errno::Timedout,
        HostErrorKind::WriteZero => Errno::Inval,
        HostErrorKind::Interrupted => Errno::Again,
        HostErrorKind::UnexpectedEof => Errno::Io,
        HostErrorKind::Other => Errno::Inval,
    }
}

/// Maps a host I/O error kind onto the guest's result codes. Total: every
/// kind maps to exactly one code, and none is `Success`.
pub fn from_tokio_error(kind: HostErrorKind) -> (r: Errno)
    ensures
        r == host_errno(kind),
        r != Errno::Success,
{
    match kind {
        HostErrorKind::NotFound => Errno::Exist,
        HostErrorKind::PermissionDenied => Errno::Perm,
        HostErrorKind::ConnectionRefused => Errno::Connrefused,
        HostErrorKind::ConnectionReset => Errno::Connreset,
        HostErrorKind::ConnectionAborted => Errno::Connaborted,
        HostErrorKind::NotConnected => Errno::Notconn,
        HostErrorKind::AddrInUse => Errno::Addrinuse,
        HostErrorKind::AddrNotAvailable => Errno::Addrnotavail,
        HostErrorKind::BrokenPipe => Errno::Pipe,
        HostErrorKind::AlreadyExists => Errno::Exist,
        HostErrorKind::WouldBlock => Errno::Again,
        HostErrorKind::InvalidInput => Errno::Inval,
        HostErrorKind::InvalidData => Errno::Inval,
        HostErrorKind::TimedOut => Errno::Timedout,
        HostErrorKind::WriteZero => Errno::Inval,
        HostErrorKind::Interrupted => Errno::Again,
        HostErrorKind::UnexpectedEof => Errno::Io,
        HostErrorKind::Other => Errno::Inval,
    }
}

} // verus!
