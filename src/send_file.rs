//! `sock_send_file`: copies bytes from a source descriptor to a connected
//! socket in chunks of at most 4096 bytes, moving the source's offset after
//! each chunk and counting the bytes the socket took.
//!
//! Reading a chunk and sending it are host I/O, so the copy loop is driven
//! from outside: `sock_send_file_begin` checks both descriptors and sets the
//! starting offset, `next_chunk` says how much to read next (zero: done),
//! `record_chunk` takes what was read and sent, and `sock_send_file_finish`
//! writes the total for the guest. A source held in memory is read here,
//! by `read_buffer_chunk`, and never past its end.

use vstd::prelude::*;
use crate::errno::Errno;
use crate::memory::{GuestMemory, in_bounds, splice, le_bytes_u64};
use crate::fd_table::{FdTable, FdEntry, Resource, entry_at, has_rights, RIGHT_FD_READ, RIGHT_SOCK_SEND, STDIN_FILENO, STDOUT_FILENO, STDERR_FILENO};
use crate::syscalls::socket_at;

verus! {

/// The most bytes read and sent in one step.
pub const SEND_FILE_CHUNK: u64 = 4096;

/// Where the bytes of a transfer come from.
#[derive(Clone, Copy, Debug, PartialEq, Eq, Structural)]
pub enum SourceKind {
    Stdin,
    File,
    Socket,
    Pipe,
    Buffer,
}

/// What the source descriptor `fd` of table `t` can be read as, or the
/// error that refuses it: `Badf` if absent; standard output and error
/// `Inval`; without the read right `Access`; directories `Isdir`; closed
/// files, symlinks and event notifications `Inval`.
pub open spec fn source_kind(t: Seq<Option<FdEntry>>, fd: u32) -> Result<SourceKind, Errno> {
    match entry_at(t, fd) {
        None => Err(Errno::Badf),
        Some(e) => if fd == STDIN_FILENO {
            Ok(SourceKind::Stdin)
        } else if fd == STDOUT_FILENO || fd == STDERR_FILENO {
            Err(Errno::Inval)
        } else if !has_rights(e.rights_base, RIGHT_FD_READ) {
            Err(Errno::Access)
        } else {
            match e.resource {
                Resource::RegularFile { open } => if open { Ok(SourceKind::File) } else { Err(Errno::Inval) },
                Resource::Directory => Err(Errno::Isdir),
                Resource::Root => Err(Errno::Isdir),
                Resource::Symlink => Err(Errno::Inval),
                Resource::Pipe => Ok(SourceKind::Pipe),
                Resource::Socket { .. } => Ok(SourceKind::Socket),
                Resource::EventNotifications => Err(Errno::Inval),
                Resource::Buffer { .. } => Ok(SourceKind::Buffer),
            }
        },
    }
}

/// The total a transfer of `count` bytes reports when its source holds
/// `avail` more bytes and the socket takes every byte it is given: each
/// step reads what is left of its chunk, up to the end of the source.
pub open spec fn chunked_total(avail: nat, count: nat) -> nat
    decreases count,
{
    if count == 0 {
        0
    } else {
        let c: nat = if count < SEND_FILE_CHUNK { count } else { SEND_FILE_CHUNK as nat };
        let got: nat = if c < avail { c } else { avail };
        got + chunked_total((avail - got) as nat, (count - c) as nat)
    }
}

/// A transfer of `count` bytes from a source that holds `avail` bytes
/// reports `min(avail, count)`: exactly `avail` when the source ends first,
/// never more, and never a byte past the source's end.
pub proof fn lemma_send_file_total(avail: nat, count: nat)
    ensures
        chunked_total(avail, count) == if avail < count { avail } else { count },
        avail <= count ==> chunked_total(avail, count) == avail,
    decreases count,
{
    if count > 0 {
        let c: nat = if count < SEND_FILE_CHUNK { count } else { SEND_FILE_CHUNK as nat };
        let got: nat = if c < avail { c } else { avail };
        lemma_send_file_total((avail - got) as nat, (count - c) as nat);
    }
}

/// One step of a transfer follows `chunked_total`: with `remaining` bytes
/// still to ask for and `avail` left in the source, a step that reads what
/// is left of the source up to `next_chunk` (and has it all sent) leaves a
/// transfer whose own `chunked_total`, plus what this step sent, is the
/// whole. So driving `record_chunk` that way ends with `total` equal to
/// `chunked_total` of the start, which `lemma_send_file_total` evaluates.
pub proof fn lemma_send_file_step(remaining: u64, avail: nat)
    requires
        remaining > 0,
    ensures
        ({
            let c = chunk_size(remaining);
            let got: nat = if (c as nat) < avail { c as nat } else { avail };
            &&& got <= c
            &&& got + chunked_total((avail - got) as nat, (remaining - c) as nat) == chunked_total(avail, remaining as nat)
        }),
{
}

/// Progress of one transfer.
pub struct SendFileModel {
    pub sock: u32,
    pub in_fd: u32,
    pub source: SourceKind,
    /// Bytes still to be asked for.
    pub remaining: u64,
    /// Bytes the socket took so far.
    pub total: u64,
    /// Bytes asked for at the start.
    pub count: u64,
}

/// One transfer in progress.
pub struct SendFile {
    sock: u32,
    in_fd: u32,
    source: SourceKind,
    remaining: u64,
    total: u64,
    count: u64,
}

impl View for SendFile {
    type V = SendFileModel;

    closed spec fn view(&self) -> SendFileModel {
        SendFileModel {
            sock: self.sock,
            in_fd: self.in_fd,
            source: self.source,
            remaining: self.remaining,
            total: self.total,
            count: self.count,
        }
    }
}

/// The size of the next chunk while `remaining` bytes are still to be
/// asked for.
pub open spec fn chunk_size(remaining: u64) -> u64 {
    if remaining < SEND_FILE_CHUNK { remaining } else { SEND_FILE_CHUNK }
}

impl SendFile {
    /// The socket never took more than was asked for.
    pub open spec fn wf(&self) -> bool {
        self@.total + self@.remaining <= self@.count
    }

    pub fn socket(&self) -> (r: u32)
        ensures
            r == self@.sock,
    {
        self.sock
    }

    pub fn source_fd(&self) -> (r: u32)
        ensures
            r == self@.in_fd,
    {
        self.in_fd
    }

    pub fn source(&self) -> (r: SourceKind)
        ensures
            r == self@.source,
    {
        self.source
    }

    /// Bytes sent so far.
    pub fn total(&self) -> (r: u64)
        ensures
            r == self@.total,
    {
        self.total
    }

    /// How many bytes to read next: at most 4096, and zero once the
    /// transfer is done.
    pub fn next_chunk(&self) -> (r: u64)
        ensures
            r == chunk_size(self@.remaining),
    {
        if self.remaining < SEND_FILE_CHUNK {
            self.remaining
        } else {
            SEND_FILE_CHUNK
        }
    }

    /// Records one step: `read` bytes came from the source (at most the
    /// chunk asked for) and the socket took `sent` of them. The source's
    /// offset moves forward by `read` (not for standard input).
    pub fn record_chunk(&mut self, fds: &mut FdTable, read: u64, sent: u64) -> (r: Result<(), Errno>)
        requires
            old(self).wf(),
            old(fds).wf(),
            old(self)@.remaining > 0,
            read <= chunk_size(old(self)@.remaining),
            sent <= read,
        ensures
            final(self).wf(),
            final(fds).wf(),
            r.is_ok() ==> final(self)@ == (SendFileModel {
                remaining: (old(self)@.remaining - chunk_size(old(self)@.remaining)) as u64,
                total: (old(self)@.total + sent) as u64,
                ..old(self)@
            }),
            r.is_ok() && old(self)@.source != SourceKind::Stdin ==> (entry_at(old(fds)@, old(self)@.in_fd) matches Some(e)
                && final(fds)@ == old(fds)@.update(old(self)@.in_fd as int, Some(FdEntry {
                    offset: ((e.offset + read) % 0x1_0000_0000_0000_0000) as u64,
                    ..e
                }))),
            r.is_ok() && old(self)@.source == SourceKind::Stdin ==> final(fds)@ == old(fds)@,
            old(self)@.source != SourceKind::Stdin && entry_at(old(fds)@, old(self)@.in_fd) is None ==> r
                == Err::<(), Errno>(Errno::Badf) && final(self)@ == old(self)@ && final(fds)@ == old(fds)@,
            r.is_ok() <==> (old(self)@.source == SourceKind::Stdin || entry_at(old(fds)@, old(self)@.in_fd) is Some),
    {
        if self.source != SourceKind::Stdin {
            self.advance(fds, read)?;
        }
        let chunk = self.next_chunk();
        self.remaining = self.remaining - chunk;
        self.total = self.total + sent;
        Ok(())
    }

    fn advance(&self, fds: &mut FdTable, read: u64) -> (r: Result<(), Errno>)
        requires
            old(fds).wf(),
        ensures
            final(fds).wf(),
            entry_at(old(fds)@, self@.in_fd) matches Some(e) ==> r.is_ok() && final(fds)@ == old(fds)@.update(
                self@.in_fd as int,
                Some(FdEntry { offset: ((e.offset + read) % 0x1_0000_0000_0000_0000) as u64, ..e }),
            ),
            entry_at(old(fds)@, self@.in_fd) is None ==> r == Err::<(), Errno>(Errno::Badf) && final(fds)@
                == old(fds)@,
    {
        fds.advance_offset(self.in_fd, read)
    }
}

/// Starts sending `count` bytes from descriptor `in_fd`, read from
/// `offset` on, to the socket at `sock`. The source's offset is set to
/// `offset` first. The source must be readable (see `source_kind`); the
/// destination must be a connected socket with the send right.
pub fn sock_send_file_begin(fds: &mut FdTable, sock: u32, in_fd: u32, offset: u64, count: u64) -> (r: Result<SendFile, Errno>)
    requires
        old(fds).wf(),
    ensures
        final(fds).wf(),
        entry_at(old(fds)@, in_fd) is None ==> r == Err::<SendFile, Errno>(Errno::Badf) && final(fds)@ == old(fds)@,
        entry_at(old(fds)@, in_fd) matches Some(e) ==> {
            &&& final(fds)@ == old(fds)@.update(in_fd as int, Some(FdEntry { offset, ..e }))
            &&& source_kind(final(fds)@, in_fd) matches Err(x) ==> r == Err::<SendFile, Errno>(x)
            &&& source_kind(final(fds)@, in_fd) matches Ok(k) ==> match socket_at(final(fds)@, sock, RIGHT_SOCK_SEND) {
                Err(x) => r == Err::<SendFile, Errno>(x),
                Ok(s) => if s@.state is Connected {
                    r matches Ok(f) && f.wf() && f@ == (SendFileModel { sock, in_fd, source: k, remaining: count, total: 0, count })
                } else {
                    r == Err::<SendFile, Errno>(Errno::Inval)
                },
            }
        },
{
    fds.set_offset(in_fd, offset)?;
    let source = source_of(fds, in_fd)?;
    let e = match fds.get(sock) {
        Some(e) => e,
        None => return Err(Errno::Badf),
    };
    if e.rights_base & RIGHT_SOCK_SEND != RIGHT_SOCK_SEND {
        return Err(Errno::Access);
    }
    match &e.resource {
        Resource::Socket { socket } => socket.check_stream()?,
        _ => return Err(Errno::Notsock),
    }
    Ok(SendFile { sock, in_fd, source, remaining: count, total: 0, count })
}

fn source_of(fds: &FdTable, fd: u32) -> (r: Result<SourceKind, Errno>)
    ensures
        r == source_kind(fds@, fd),
{
    let e = match fds.get(fd) {
        Some(e) => e,
        None => return Err(Errno::Badf),
    };
    if fd == STDIN_FILENO {
        return Ok(SourceKind::Stdin);
    }
    if fd == STDOUT_FILENO || fd == STDERR_FILENO {
        return Err(Errno::Inval);
    }
    if e.rights_base & RIGHT_FD_READ != RIGHT_FD_READ {
        return Err(Errno::Access);
    }
    match &e.resource {
        Resource::RegularFile { open } => if *open {
            Ok(SourceKind::File)
        } else {
            Err(Errno::Inval)
        },
        Resource::Directory => Err(Errno::Isdir),
        Resource::Root => Err(Errno::Isdir),
        Resource::Symlink => Err(Errno::Inval),
        Resource::Pipe => Ok(SourceKind::Pipe),
        Resource::Socket { .. } => Ok(SourceKind::Socket),
        Resource::EventNotifications => Err(Errno::Inval),
        Resource::Buffer { .. } => Ok(SourceKind::Buffer),
    }
}

/// The bytes of `data` from `offset` on, at most `len` of them: never any
/// past the end.
pub open spec fn buffer_chunk(data: Seq<u8>, offset: u64, len: u64) -> Seq<u8> {
    if offset >= data.len() {
        Seq::empty()
    } else if offset + len >= data.len() {
        data.subrange(offset as int, data.len() as int)
    } else {
        data.subrange(offset as int, offset + len)
    }
}

/// Reads the next chunk of at most `len` bytes from the in-memory buffer at
/// `fd`, at its current offset. `Badf` where there is no entry; `Inval`
/// where the entry is not a buffer.
pub fn read_buffer_chunk(fds: &FdTable, fd: u32, len: u64) -> (r: Result<Vec<u8>, Errno>)
    ensures
        entry_at(fds@, fd) is None ==> r == Err::<Vec<u8>, Errno>(Errno::Badf),
        entry_at(fds@, fd) matches Some(e) ==> match e.resource {
            Resource::Buffer { data } => r matches Ok(v) && v@ == buffer_chunk(data@, e.offset, len),
            _ => r == Err::<Vec<u8>, Errno>(Errno::Inval),
        },
{
    let e = match fds.get(fd) {
        Some(e) => e,
        None => return Err(Errno::Badf),
    };
    let data = match &e.resource {
        Resource::Buffer { data } => data,
        _ => return Err(Errno::Inval),
    };
    let mut out: Vec<u8> = Vec::new();
    if e.offset >= data.len() as u64 {
        return Ok(out);
    }
    let start = e.offset as usize;
    let end: usize = if len >= (data.len() - start) as u64 {
        data.len()
    } else {
        start + len as usize
    };
    let mut i = start;
    while i < end
        invariant
            start <= i <= end,
            end <= data@.len(),
            out@ == data@.subrange(start as int, i as int),
        decreases end - i,
    {
        out.push(data[i]);
        i = i + 1;
        assert(out@ =~= data@.subrange(start as int, i as int));
    }
    Ok(out)
}

/// Writes the transfer's total (eight bytes, little-endian) to guest
/// memory at `ret_sent`.
pub fn sock_send_file_finish(memory: &mut GuestMemory, transfer: &SendFile, ret_sent: u32) -> (r: Errno)
    ensures
        in_bounds(ret_sent as int, 8, old(memory)@.len() as int) ==> r == Errno::Success && final(memory)@
            == splice(old(memory)@, ret_sent as int, le_bytes_u64(transfer@.total)),
        !in_bounds(ret_sent as int, 8, old(memory)@.len() as int) ==> r == Errno::Fault && *final(memory)
            == *old(memory),
{
    match memory.write_u64(ret_sent, transfer.total) {
        Ok(()) => Errno::Success,
        Err(e) => e,
    }
}

} // verus!
