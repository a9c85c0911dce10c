//! A device file that reads as endless zero bytes and swallows every write,
//! as `/dev/zero` does.

use vstd::prelude::*;

verus! {

/// Errors of file operations.
#[derive(Clone, Copy, Debug, PartialEq, Eq, Structural)]
pub enum FsError {
    PermissionDenied,
    InvalidInput,
    IOError,
}

/// A position to seek to.
#[derive(Clone, Copy, Debug, PartialEq, Eq, Structural)]
pub enum SeekFrom {
    Start(u64),
    End(i64),
    Current(i64),
}

/// The zero device.
#[derive(Clone, Copy, Debug, Default, PartialEq, Eq, Structural)]
pub struct ZeroFile {}

impl ZeroFile {
    /// Seeking goes nowhere: the position stays 0.
    pub fn seek(&mut self, _pos: SeekFrom) -> (r: Result<u64, FsError>)
        ensures
            r == Ok::<u64, FsError>(0),
    {
        Ok(0)
    }

    /// Every byte is accepted and dropped.
    pub fn write(&mut self, buf: &[u8]) -> (r: Result<usize, FsError>)
        ensures
            r == Ok::<usize, FsError>(buf@.len() as usize),
    {
        Ok(buf.len())
    }

    pub fn flush(&mut self) -> (r: Result<(), FsError>)
        ensures
            r is Ok,
    {
        Ok(())
    }

    /// Fills the whole buffer with zeros.
    pub fn read(&mut self, buf: &mut Vec<u8>) -> (r: Result<usize, FsError>)
        ensures
            r == Ok::<usize, FsError>(old(buf)@.len() as usize),
            final(buf)@ == Seq::new(old(buf)@.len(), |_i: int| 0u8),
    {
        let mut i: usize = 0;
        while i < buf.len()
            invariant
                i <= buf.len(),
                buf.len() == old(buf)@.len(),
                forall|j: int| 0 <= j < i ==> buf@[j] == 0u8,
            decreases buf.len() - i,
        {
            buf.set(i, 0);
            i = i + 1;
        }
        assert(buf@ =~= Seq::new(old(buf)@.len(), |_i: int| 0u8));
        Ok(buf.len())
    }

    pub fn last_accessed(&self) -> (r: u64)
        ensures
            r == 0,
    {
        0
    }

    pub fn last_modified(&self) -> (r: u64)
        ensures
            r == 0,
    {
        0
    }

    pub fn created_time(&self) -> (r: u64)
        ensures
            r == 0,
    {
        0
    }

    pub fn size(&self) -> (r: u64)
        ensures
            r == 0,
    {
        0
    }

    pub fn set_len(&mut self, _new_size: u64) -> (r: Result<(), FsError>)
        ensures
            r is Ok,
    {
        Ok(())
    }

    pub fn unlink(&mut self) -> (r: Result<(), FsError>)
        ensures
            r is Ok,
    {
        Ok(())
    }

    pub fn bytes_available(&self) -> (r: Result<usize, FsError>)
        ensures
            r == Ok::<usize, FsError>(0),
    {
        Ok(0)
    }

    /// The device has no host file descriptor.
    pub fn get_fd(&self) -> (r: Option<u32>)
        ensures
            r is None,
    {
        None
    }
}

} // verus!
