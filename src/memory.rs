//! A bounds-checked view of a guest's linear memory. Every access outside
//! the memory is reported as `Fault` rather than touching anything.

use vstd::prelude::*;
use crate::errno::Errno;

verus! {

/// Whether `len` bytes starting at `ptr` lie inside a memory of `size` bytes.
pub open spec fn in_bounds(ptr: int, len: int, size: int) -> bool {
    0 <= ptr && 0 <= len && ptr + len <= size
}

/// `m` with the bytes starting at `ptr` replaced by `data`.
pub open spec fn splice(m: Seq<u8>, ptr: int, data: Seq<u8>) -> Seq<u8> {
    m.subrange(0, ptr) + data + m.subrange(ptr + data.len(), m.len() as int)
}

/// The little-endian encoding of a 32-bit value.
pub open spec fn le_bytes_u32(v: u32) -> Seq<u8> {
    seq![(v & 0xff) as u8, ((v >> 8u32) & 0xff) as u8, ((v >> 16u32) & 0xff) as u8, ((v >> 24u32) & 0xff) as u8]
}

/// The little-endian encoding of a 64-bit value.
pub open spec fn le_bytes_u64(v: u64) -> Seq<u8> {
    seq![
        (v & 0xff) as u8,
        ((v >> 8u64) & 0xff) as u8,
        ((v >> 16u64) & 0xff) as u8,
        ((v >> 24u64) & 0xff) as u8,
        ((v >> 32u64) & 0xff) as u8,
        ((v >> 40u64) & 0xff) as u8,
        ((v >> 48u64) & 0xff) as u8,
        ((v >> 56u64) & 0xff) as u8,
    ]
}

/// The 32-bit value whose little-endian encoding is the first four bytes of `b`.
pub open spec fn le_u32(b: Seq<u8>) -> u32 {
    (b[0] as u32) | ((b[1] as u32) << 8u32) | ((b[2] as u32) << 16u32) | ((b[3] as u32) << 24u32)
}

/// The 64-bit value whose little-endian encoding is the first eight bytes of `b`.
pub open spec fn le_u64(b: Seq<u8>) -> u64 {
    (b[0] as u64) | ((b[1] as u64) << 8u64) | ((b[2] as u64) << 16u64) | ((b[3] as u64) << 24u64)
        | ((b[4] as u64) << 32u64) | ((b[5] as u64) << 40u64) | ((b[6] as u64) << 48u64)
        | ((b[7] as u64) << 56u64)
}

/// A guest's linear memory.
pub struct GuestMemory {
    bytes: Vec<u8>,
}

impl View for GuestMemory {
    type V = Seq<u8>;

    closed spec fn view(&self) -> Seq<u8> {
        self.bytes@
    }
}

impl GuestMemory {
    /// A memory of `size` zero bytes.
    pub fn new(size: usize) -> (r: GuestMemory)
        ensures
            r@ == Seq::new(size as nat, |_i: int| 0u8),
    {
        let mut bytes: Vec<u8> = Vec::new();
        while bytes.len() < size
            invariant
                bytes.len() <= size,
                forall|i: int| 0 <= i < bytes.len() ==> bytes@[i] == 0u8,
            decreases size - bytes.len(),
        {
            bytes.push(0);
        }
        let r = GuestMemory { bytes };
        assert(r@ =~= Seq::new(size as nat, |_i: int| 0u8));
        r
    }

    pub fn size(&self) -> (r: usize)
        ensures
            r == self@.len(),
    {
        self.bytes.len()
    }

    /// Copies `len` bytes starting at `ptr` out of the memory.
    pub fn read_bytes(&self, ptr: u32, len: u32) -> (r: Result<Vec<u8>, Errno>)
        ensures
            r.is_ok() <==> in_bounds(ptr as int, len as int, self@.len() as int),
            r matches Ok(v) ==> v@ == self@.subrange(ptr as int, ptr + len),
            r matches Err(e) ==> e == Errno::Fault,
    {
        let size = self.bytes.len();
        if ptr as usize > size || len as usize > size - ptr as usize {
            return Err(Errno::Fault);
        }
        let start = ptr as usize;
        let end = start + len as usize;
        let mut out: Vec<u8> = Vec::new();
        let mut i = start;
        while i < end
            invariant
                start <= i <= end,
                end <= self.bytes.len(),
                out@ == self@.subrange(start as int, i as int),
            decreases end - i,
        {
            out.push(self.bytes[i]);
            i = i + 1;
            assert(out@ =~= self@.subrange(start as int, i as int));
        }
        Ok(out)
    }

    /// Copies `data` into the memory starting at `ptr`.
    pub fn write_bytes(&mut self, ptr: u32, data: &[u8]) -> (r: Result<(), Errno>)
        ensures
            r.is_ok() <==> in_bounds(ptr as int, data@.len() as int, old(self)@.len() as int),
            r.is_ok() ==> final(self)@ == splice(old(self)@, ptr as int, data@),
            r matches Err(e) ==> e == Errno::Fault && *final(self) == *old(self),
    {
        let size = self.bytes.len();
        if ptr as usize > size || data.len() > size - ptr as usize {
            return Err(Errno::Fault);
        }
        let start = ptr as usize;
        let mut i: usize = 0;
        while i < data.len()
            invariant
                start + data@.len() <= self.bytes.len(),
                self.bytes.len() == old(self)@.len(),
                0 <= i <= data@.len(),
                forall|j: int| 0 <= j < start ==> self@[j] == old(self)@[j],
                forall|j: int| start + data@.len() <= j < self@.len() ==> self@[j] == old(self)@[j],
                forall|j: int| start <= j < start + i ==> self@[j] == data@[j - start],
                forall|j: int| start + i <= j < start + data@.len() ==> self@[j] == old(self)@[j],
            decreases data@.len() - i,
        {
            let b = data[i];
            let ghost before = self.bytes@;
            assert(before == self@);
            assert(forall|j: int| start <= j < start + i ==> before[j] == data@[j - start]);
            self.bytes.set(start + i, b);
            assert forall|j: int| start <= j < start + i + 1 implies self@[j] == data@[j - start] by {
                if j == start + i {
                    assert(j - start == i);
                } else {
                    assert(before[j] == data@[j - start]);
                }
            }
            i = i + 1;
        }
        assert(self@ =~= splice(old(self)@, ptr as int, data@));
        Ok(())
    }

    /// Reads one byte.
    pub fn read_u8(&self, ptr: u32) -> (r: Result<u8, Errno>)
        ensures
            r.is_ok() <==> in_bounds(ptr as int, 1, self@.len() as int),
            r matches Ok(v) ==> v == self@[ptr as int],
            r matches Err(e) ==> e == Errno::Fault,
    {
        if ptr as usize >= self.bytes.len() {
            return Err(Errno::Fault);
        }
        Ok(self.bytes[ptr as usize])
    }

    /// Reads a little-endian 32-bit value.
    pub fn read_u32(&self, ptr: u32) -> (r: Result<u32, Errno>)
        ensures
            r.is_ok() <==> in_bounds(ptr as int, 4, self@.len() as int),
            r matches Ok(v) ==> v == le_u32(self@.subrange(ptr as int, ptr + 4)),
            r matches Err(e) ==> e == Errno::Fault,
    {
        let b = self.read_bytes(ptr, 4)?;
        Ok((b[0] as u32) | ((b[1] as u32) << 8u32) | ((b[2] as u32) << 16u32) | ((b[3] as u32) << 24u32))
    }

    /// Reads a little-endian 64-bit value.
    pub fn read_u64(&self, ptr: u32) -> (r: Result<u64, Errno>)
        ensures
            r.is_ok() <==> in_bounds(ptr as int, 8, self@.len() as int),
            r matches Ok(v) ==> v == le_u64(self@.subrange(ptr as int, ptr + 8)),
            r matches Err(e) ==> e == Errno::Fault,
    {
        let b = self.read_bytes(ptr, 8)?;
        Ok((b[0] as u64) | ((b[1] as u64) << 8u64) | ((b[2] as u64) << 16u64) | ((b[3] as u64) << 24u64)
            | ((b[4] as u64) << 32u64) | ((b[5] as u64) << 40u64) | ((b[6] as u64) << 48u64)
            | ((b[7] as u64) << 56u64))
    }

    /// Writes one byte.
    pub fn write_u8(&mut self, ptr: u32, v: u8) -> (r: Result<(), Errno>)
        ensures
            r.is_ok() <==> in_bounds(ptr as int, 1, old(self)@.len() as int),
            r.is_ok() ==> final(self)@ == splice(old(self)@, ptr as int, seq![v]),
            r matches Err(e) ==> e == Errno::Fault && *final(self) == *old(self),
    {
        let data: [u8; 1] = [v];
        proof {
            assert(data@ =~= seq![v]);
        }
        self.write_bytes(ptr, &data)
    }

    /// Writes a 32-bit value in little-endian order.
    pub fn write_u32(&mut self, ptr: u32, v: u32) -> (r: Result<(), Errno>)
        ensures
            r.is_ok() <==> in_bounds(ptr as int, 4, old(self)@.len() as int),
            r.is_ok() ==> final(self)@ == splice(old(self)@, ptr as int, le_bytes_u32(v)),
            r matches Err(e) ==> e == Errno::Fault && *final(self) == *old(self),
    {
        let data: [u8; 4] = [
            (v & 0xff) as u8,
            ((v >> 8u32) & 0xff) as u8,
            ((v >> 16u32) & 0xff) as u8,
            ((v >> 24u32) & 0xff) as u8,
        ];
        proof {
            assert(data@ =~= le_bytes_u32(v));
        }
        self.write_bytes(ptr, &data)
    }

    /// Writes a 64-bit value in little-endian order.
    pub fn write_u64(&mut self, ptr: u32, v: u64) -> (r: Result<(), Errno>)
        ensures
            r.is_ok() <==> in_bounds(ptr as int, 8, old(self)@.len() as int),
            r.is_ok() ==> final(self)@ == splice(old(self)@, ptr as int, le_bytes_u64(v)),
            r matches Err(e) ==> e == Errno::Fault && *final(self) == *old(self),
    {
        let data: [u8; 8] = [
            (v & 0xff) as u8,
            ((v >> 8u64) & 0xff) as u8,
            ((v >> 16u64) & 0xff) as u8,
            ((v >> 24u64) & 0xff) as u8,
            ((v >> 32u64) & 0xff) as u8,
            ((v >> 40u64) & 0xff) as u8,
            ((v >> 48u64) & 0xff) as u8,
            ((v >> 56u64) & 0xff) as u8,
        ];
        proof {
            assert(data@ =~= le_bytes_u64(v));
        }
        self.write_bytes(ptr, &data)
    }
}

} // verus!
