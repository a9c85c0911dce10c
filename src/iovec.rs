//! Vectored buffers in guest memory: a list of `(buf, buf_len)` pairs,
//! eight bytes each (two little-endian 32-bit words). Sending gathers the
//! buffers' bytes in order; receiving scatters bytes across them in order.

use vstd::prelude::*;
use crate::errno::Errno;
use crate::memory::{GuestMemory, in_bounds, splice, le_u32};

verus! {

/// Size of one entry of a buffer list.
pub const IOVEC_SIZE: u32 = 8;

/// One guest buffer.
#[derive(Clone, Copy, Debug, PartialEq, Eq, Structural)]
pub struct IoVec {
    pub buf: u32,
    pub buf_len: u32,
}

/// The entry at index `i` of the buffer list at `ptr`.
pub open spec fn iovec_at(m: Seq<u8>, ptr: int, i: int) -> IoVec {
    IoVec {
        buf: le_u32(m.subrange(ptr + 8 * i, ptr + 8 * i + 4)),
        buf_len: le_u32(m.subrange(ptr + 8 * i + 4, ptr + 8 * i + 8)),
    }
}

/// Every buffer lies inside a memory of `size` bytes.
pub open spec fn all_in_bounds(iovs: Seq<IoVec>, size: int) -> bool {
    forall|i: int| 0 <= i < iovs.len() ==> in_bounds((#[trigger] iovs[i]).buf as int, iovs[i].buf_len as int, size)
}

/// The bytes of all buffers, in order.
pub open spec fn gathered(m: Seq<u8>, iovs: Seq<IoVec>) -> Seq<u8>
    decreases iovs.len(),
{
    if iovs.len() == 0 {
        Seq::empty()
    } else {
        let v = iovs.last();
        gathered(m, iovs.drop_last()) + m.subrange(v.buf as int, v.buf + v.buf_len)
    }
}

/// Memory `m` after writing `data` across the buffers in order, each
/// taking as much as fits; what does not fit is dropped.
pub open spec fn scattered(m: Seq<u8>, iovs: Seq<IoVec>, data: Seq<u8>) -> Seq<u8>
    decreases iovs.len(),
{
    if iovs.len() == 0 {
        m
    } else {
        let n = if data.len() < iovs[0].buf_len { data.len() as int } else { iovs[0].buf_len as int };
        scattered(splice(m, iovs[0].buf as int, data.subrange(0, n)), iovs.drop_first(), data.subrange(n, data.len() as int))
    }
}

/// How many bytes of `data` the buffers take.
pub open spec fn placed(iovs: Seq<IoVec>, data_len: nat) -> nat
    decreases iovs.len(),
{
    if iovs.len() == 0 {
        0
    } else {
        let n: nat = if data_len < iovs[0].buf_len { data_len } else { iovs[0].buf_len as nat };
        n + placed(iovs.drop_first(), (data_len - n) as nat)
    }
}

/// Reads the list of `count` buffers at `ptr`. `Fault` where the list is
/// outside memory.
pub fn read_iovecs(memory: &GuestMemory, ptr: u32, count: u32) -> (r: Result<Vec<IoVec>, Errno>)
    ensures
        r.is_ok() <==> (8 * count <= u32::MAX && in_bounds(ptr as int, 8 * count, memory@.len() as int)),
        r matches Ok(v) ==> v@.len() == count && forall|i: int| 0 <= i < count ==> #[trigger] v@[i] == iovec_at(memory@, ptr as int, i),
        r matches Err(e) ==> e == Errno::Fault,
{
    if count > u32::MAX / IOVEC_SIZE {
        return Err(Errno::Fault);
    }
    let raw = memory.read_bytes(ptr, count * IOVEC_SIZE)?;
    let mut out: Vec<IoVec> = Vec::new();
    let mut i: u32 = 0;
    while i < count
        invariant
            i <= count,
            count <= u32::MAX / IOVEC_SIZE,
            in_bounds(ptr as int, 8 * count, memory@.len() as int),
            raw@ == memory@.subrange(ptr as int, ptr + 8 * count),
            out@.len() == i,
            forall|j: int| 0 <= j < i ==> #[trigger] out@[j] == iovec_at(memory@, ptr as int, j),
        decreases count - i,
    {
        let k = (i * 8) as usize;
        let buf: u32 = (raw[k] as u32) | ((raw[k + 1] as u32) << 8u32) | ((raw[k + 2] as u32) << 16u32) | ((raw[k + 3] as u32) << 24u32);
        let buf_len: u32 = (raw[k + 4] as u32) | ((raw[k + 5] as u32) << 8u32) | ((raw[k + 6] as u32) << 16u32) | ((raw[k + 7] as u32) << 24u32);
        assert(raw@.subrange(k as int, k + 4) =~= memory@.subrange(ptr + 8 * i, ptr + 8 * i + 4));
        assert(raw@.subrange(k + 4, k + 8) =~= memory@.subrange(ptr + 8 * i + 4, ptr + 8 * i + 8));
        out.push(IoVec { buf, buf_len });
        i = i + 1;
    }
    Ok(out)
}

/// Checks that every buffer lies inside memory; `Fault` otherwise.
pub fn check_iovecs(memory: &GuestMemory, iovs: &Vec<IoVec>) -> (r: Result<(), Errno>)
    ensures
        r.is_ok() <==> all_in_bounds(iovs@, memory@.len() as int),
        r matches Err(e) ==> e == Errno::Fault,
{
    let size = memory.size();
    let mut i: usize = 0;
    while i < iovs.len()
        invariant
            i <= iovs.len(),
            size == memory@.len(),
            all_in_bounds(iovs@.subrange(0, i as int), size as int),
        decreases iovs.len() - i,
    {
        let v = iovs[i];
        if v.buf as usize > size || v.buf_len as usize > size - v.buf as usize {
            assert(!in_bounds(iovs@[i as int].buf as int, iovs@[i as int].buf_len as int, size as int));
            return Err(Errno::Fault);
        }
        assert(iovs@.subrange(0, i + 1) =~= iovs@.subrange(0, i as int).push(v));
        i = i + 1;
    }
    assert(iovs@.subrange(0, iovs@.len() as int) =~= iovs@);
    Ok(())
}

/// The bytes of all buffers, in order.
pub fn gather(memory: &GuestMemory, iovs: &Vec<IoVec>) -> (r: Vec<u8>)
    requires
        all_in_bounds(iovs@, memory@.len() as int),
    ensures
        r@ == gathered(memory@, iovs@),
{
    let mut out: Vec<u8> = Vec::new();
    let mut i: usize = 0;
    while i < iovs.len()
        invariant
            i <= iovs.len(),
            all_in_bounds(iovs@, memory@.len() as int),
            out@ == gathered(memory@, iovs@.subrange(0, i as int)),
        decreases iovs.len() - i,
    {
        let v = iovs[i];
        let part = memory.read_bytes(v.buf, v.buf_len).unwrap();
        let mut j: usize = 0;
        let ghost before = out@;
        while j < part.len()
            invariant
                j <= part.len(),
                out@ == before + part@.subrange(0, j as int),
            decreases part.len() - j,
        {
            out.push(part[j]);
            j = j + 1;
            assert(out@ =~= before + part@.subrange(0, j as int));
        }
        assert(part@.subrange(0, part@.len() as int) =~= part@);
        assert(iovs@.subrange(0, i + 1).drop_last() =~= iovs@.subrange(0, i as int));
        i = i + 1;
    }
    assert(iovs@.subrange(0, iovs@.len() as int) =~= iovs@);
    out
}

/// Writes `data` across the buffers in order and returns how many bytes
/// were placed.
pub fn scatter(memory: &mut GuestMemory, iovs: &Vec<IoVec>, data: &Vec<u8>) -> (r: u64)
    requires
        all_in_bounds(iovs@, old(memory)@.len() as int),
    ensures
        final(memory)@ == scattered(old(memory)@, iovs@, data@),
        r == placed(iovs@, data@.len()),
{
    let mut i: usize = 0;
    let mut pos: usize = 0;
    let mut total: u64 = 0;
    assert(iovs@.subrange(0, iovs@.len() as int) =~= iovs@);
    assert(data@.subrange(0, data@.len() as int) =~= data@);
    while i < iovs.len()
        invariant
            i <= iovs.len(),
            pos <= data@.len(),
            memory@.len() == old(memory)@.len(),
            all_in_bounds(iovs@, memory@.len() as int),
            scattered(memory@, iovs@.subrange(i as int, iovs@.len() as int), data@.subrange(pos as int, data@.len() as int))
                == scattered(old(memory)@, iovs@, data@),
            total + placed(iovs@.subrange(i as int, iovs@.len() as int), (data@.len() - pos) as nat) == placed(iovs@, data@.len()),
            total <= pos,
        decreases iovs.len() - i,
    {
        let v = iovs[i];
        let left = data.len() - pos;
        let n: usize = if left < v.buf_len as usize { left } else { v.buf_len as usize };
        let mut chunk: Vec<u8> = Vec::new();
        let mut j: usize = 0;
        while j < n
            invariant
                j <= n,
                pos + n <= data@.len(),
                data@.len() <= usize::MAX,
                chunk@ == data@.subrange(pos as int, pos + j),
            decreases n - j,
        {
            chunk.push(data[pos + j]);
            j = j + 1;
            assert(chunk@ =~= data@.subrange(pos as int, pos + j));
        }
        let ghost m0 = memory@;
        let ghost rest = iovs@.subrange(i as int, iovs@.len() as int);
        let ghost d = data@.subrange(pos as int, data@.len() as int);
        assert(rest[0] == v);
        assert(d.subrange(0, n as int) =~= chunk@);
        assert(rest.drop_first() =~= iovs@.subrange(i + 1, iovs@.len() as int));
        assert(d.subrange(n as int, d.len() as int) =~= data@.subrange(pos + n, data@.len() as int));
        let _in_bounds = memory.write_bytes(v.buf, chunk.as_slice());
        assert(memory@ == splice(m0, v.buf as int, chunk@));
        i = i + 1;
        pos = pos + n;
        total = total + n as u64;
    }
    assert(iovs@.subrange(iovs@.len() as int, iovs@.len() as int) =~= Seq::<IoVec>::empty());
    total
}

} // verus!
