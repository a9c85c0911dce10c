//! The descriptor table: small integer handles mapped to the resources they
//! stand for, each with a rights bitmask that bounds what may be done
//! through it.

use vstd::prelude::*;
use crate::errno::Errno;
use crate::socket::TcpSocket;

verus! {

pub const RIGHT_FD_READ: u64 = 0x2;
pub const RIGHT_FD_WRITE: u64 = 0x40;
pub const RIGHT_SOCK_ACCEPT: u64 = 0x2000_0000;
pub const RIGHT_SOCK_CONNECT: u64 = 0x4000_0000;
pub const RIGHT_SOCK_LISTEN: u64 = 0x8000_0000;
pub const RIGHT_SOCK_BIND: u64 = 0x1_0000_0000;
pub const RIGHT_SOCK_RECV: u64 = 0x2_0000_0000;
pub const RIGHT_SOCK_SEND: u64 = 0x4_0000_0000;
pub const RIGHT_SOCK_ADDR_LOCAL: u64 = 0x8_0000_0000;
pub const RIGHT_SOCK_ADDR_REMOTE: u64 = 0x10_0000_0000;
/// Every right.
pub const ALL_RIGHTS: u64 = 0x7F_FFFF_FFFF;

/// Descriptor of the guest's standard input.
pub const STDIN_FILENO: u32 = 0;
/// Descriptor of the guest's standard output.
pub const STDOUT_FILENO: u32 = 1;
/// Descriptor of the guest's standard error.
pub const STDERR_FILENO: u32 = 2;

/// Whether `base` holds every right of `required`.
pub open spec fn has_rights(base: u64, required: u64) -> bool {
    base & required == required
}

/// What a descriptor stands for.
#[derive(Debug)]
pub enum Resource {
    /// A file of the host; `open` is false once its handle was closed.
    RegularFile { open: bool },
    Directory,
    Root,
    Symlink,
    Pipe,
    Socket { socket: TcpSocket },
    EventNotifications,
    /// Bytes held in memory.
    Buffer { data: Vec<u8> },
}

/// One entry of the table.
#[derive(Debug)]
pub struct FdEntry {
    pub rights_base: u64,
    pub rights_inheriting: u64,
    /// Position of the next read or write, in bytes.
    pub offset: u64,
    pub name: String,
    pub resource: Resource,
}

impl FdEntry {
    /// A socket inside is well formed.
    pub open spec fn wf(&self) -> bool {
        self.resource matches Resource::Socket { socket } ==> socket.wf()
    }
}

/// The descriptor table.
pub struct FdTable {
    entries: Vec<Option<FdEntry>>,
}

impl View for FdTable {
    type V = Seq<Option<FdEntry>>;

    closed spec fn view(&self) -> Seq<Option<FdEntry>> {
        self.entries@
    }
}

/// An empty slot, or an entry that is well formed.
pub open spec fn slot_wf(s: Option<FdEntry>) -> bool {
    s matches Some(e) ==> e.wf()
}

/// The entry at `fd` in a table's contents, if any.
pub open spec fn entry_at(t: Seq<Option<FdEntry>>, fd: u32) -> Option<FdEntry> {
    if fd < t.len() {
        t[fd as int]
    } else {
        None
    }
}

impl FdTable {
    pub open spec fn wf(&self) -> bool {
        forall|i: int| 0 <= i < self@.len() ==> slot_wf(#[trigger] self@[i])
    }

    pub open spec fn lookup(&self, fd: u32) -> Option<FdEntry> {
        entry_at(self@, fd)
    }

    pub fn new() -> (r: FdTable)
        ensures
            r@ == Seq::<Option<FdEntry>>::empty(),
            r.wf(),
    {
        FdTable { entries: Vec::new() }
    }

    pub fn len(&self) -> (r: usize)
        ensures
            r == self@.len(),
    {
        self.entries.len()
    }

    /// Puts `entry` at the lowest free descriptor. A table with no descriptor
    /// left gives `Inval`.
    pub fn open(&mut self, entry: FdEntry) -> (r: Result<u32, Errno>)
        requires
            old(self).wf(),
            entry.wf(),
        ensures
            final(self).wf(),
            r matches Ok(fd) ==> old(self).lookup(fd) is None && final(self)@ == (if fd < old(self)@.len() {
                old(self)@.update(fd as int, Some(entry))
            } else {
                old(self)@.push(Some(entry))
            }) && fd <= old(self)@.len() && (forall|i: int|
                0 <= i < fd ==> old(self)@[i] is Some),
            r matches Err(e) ==> e == Errno::Inval && *final(self) == *old(self),
            r is Err ==> old(self)@.len() > u32::MAX,
    {
        let mut i: usize = 0;
        while i < self.entries.len()
            invariant
                i <= self.entries.len(),
                *self == *old(self),
                self@ == old(self)@,
                self.wf(),
                entry.wf(),
                forall|j: int| 0 <= j < i ==> old(self)@[j] is Some,
            decreases self.entries.len() - i,
        {
            if self.entries[i].is_none() {
                if i > u32::MAX as usize {
                    return Err(Errno::Inval);
                }
                self.entries.set(i, Some(entry));
                assert forall|j: int| 0 <= j < self@.len() implies slot_wf(#[trigger] self@[j]) by {
                    if j != i {
                        assert(self@[j] == old(self)@[j]);
                    }
                }
                return Ok(i as u32);
            }
            i = i + 1;
        }
        if self.entries.len() > u32::MAX as usize {
            return Err(Errno::Inval);
        }
        let fd = self.entries.len() as u32;
        self.entries.push(Some(entry));
        Ok(fd)
    }

    /// The entry at `fd`.
    pub fn get(&self, fd: u32) -> (r: Option<&FdEntry>)
        ensures
            r matches Some(e) ==> self.lookup(fd) == Some(*e),
            r is None ==> self.lookup(fd) is None,
    {
        if (fd as usize) < self.entries.len() {
            match &self.entries[fd as usize] {
                Some(e) => Some(e),
                None => None,
            }
        } else {
            None
        }
    }

    /// Removes the entry at `fd` and hands it out.
    pub fn take(&mut self, fd: u32) -> (r: Option<FdEntry>)
        requires
            old(self).wf(),
        ensures
            final(self).wf(),
            r == old(self).lookup(fd),
            r is Some ==> final(self)@ == old(self)@.update(fd as int, None),
            r is None ==> *final(self) == *old(self),
    {
        if (fd as usize) < self.entries.len() {
            if self.entries[fd as usize].is_some() {
                let mut slot: Option<FdEntry> = None;
                let ghost before = self@;
                self.entries.set_and_swap(fd as usize, &mut slot);
                assert(self@ == before.update(fd as int, None));
                return slot;
            }
        }
        None
    }

    /// Puts an entry back at `fd` (after `take`), replacing what is there.
    pub fn put(&mut self, fd: u32, entry: FdEntry)
        requires
            old(self).wf(),
            entry.wf(),
            fd < old(self)@.len(),
        ensures
            final(self).wf(),
            final(self)@ == old(self)@.update(fd as int, Some(entry)),
    {
        self.entries.set(fd as usize, Some(entry));
    }

    /// Removes the entry at `fd`; `Badf` where there is none.
    pub fn close(&mut self, fd: u32) -> (r: Result<(), Errno>)
        requires
            old(self).wf(),
        ensures
            final(self).wf(),
            old(self).lookup(fd) is Some ==> r.is_ok() && final(self)@ == old(self)@.update(fd as int, None),
            old(self).lookup(fd) is None ==> r == Err::<(), Errno>(Errno::Badf) && *final(self) == *old(self),
    {
        match self.take(fd) {
            Some(_) => Ok(()),
            None => Err(Errno::Badf),
        }
    }

    /// Sets the offset of the entry at `fd`; `Badf` where there is none.
    pub fn set_offset(&mut self, fd: u32, offset: u64) -> (r: Result<(), Errno>)
        requires
            old(self).wf(),
        ensures
            final(self).wf(),
            old(self).lookup(fd) matches Some(e) ==> r.is_ok() && final(self)@ == old(self)@.update(
                fd as int,
                Some(FdEntry { offset, ..e }),
            ),
            old(self).lookup(fd) is None ==> r == Err::<(), Errno>(Errno::Badf) && *final(self) == *old(self),
    {
        match self.take(fd) {
            Some(e) => {
                let FdEntry { rights_base, rights_inheriting, offset: _, name, resource } = e;
                self.put(fd, FdEntry { rights_base, rights_inheriting, offset, name, resource });
                Ok(())
            },
            None => Err(Errno::Badf),
        }
    }

    /// Moves the offset of the entry at `fd` forward by `n` bytes (wrapping
    /// as an atomic add does); `Badf` where there is no entry.
    pub fn advance_offset(&mut self, fd: u32, n: u64) -> (r: Result<(), Errno>)
        requires
            old(self).wf(),
        ensures
            final(self).wf(),
            old(self).lookup(fd) matches Some(e) ==> r.is_ok() && final(self)@ == old(self)@.update(
                fd as int,
                Some(FdEntry { offset: ((e.offset + n) % 0x1_0000_0000_0000_0000) as u64, ..e }),
            ),
            old(self).lookup(fd) is None ==> r == Err::<(), Errno>(Errno::Badf) && *final(self) == *old(self),
    {
        match self.take(fd) {
            Some(e) => {
                let FdEntry { rights_base, rights_inheriting, offset, name, resource } = e;
                let offset = offset.wrapping_add(n);
                self.put(fd, FdEntry { rights_base, rights_inheriting, offset, name, resource });
                Ok(())
            },
            None => Err(Errno::Badf),
        }
    }
}

} // verus!
