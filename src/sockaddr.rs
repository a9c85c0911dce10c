//! Socket addresses and their fixed-size wire structures in guest memory:
//! `sockaddr_in` (16 bytes: family, big-endian port, 4 address bytes, 8
//! bytes of padding) and `sockaddr_in6` (28 bytes: family, big-endian port,
//! flow info, 16 address bytes, scope id).

use vstd::prelude::*;
use crate::errno::Errno;
use crate::memory::{GuestMemory, in_bounds, splice, le_u32};

verus! {

/// Address family tag of IPv4 in the guest ABI.
pub const AF_INET: u16 = 1;
/// Address family tag of IPv6 in the guest ABI.
pub const AF_INET6: u16 = 2;
/// Size of the IPv4 wire structure.
pub const SOCKADDR_IN_SIZE: u32 = 16;
/// Size of the IPv6 wire structure.
pub const SOCKADDR_IN6_SIZE: u32 = 28;

/// An IPv4 or IPv6 socket address, held in host order.
#[derive(Clone, Copy, Debug, PartialEq, Eq)]
pub enum SockAddr {
    V4 { ip: [u8; 4], port: u16 },
    V6 { ip: [u8; 16], port: u16, flowinfo: u32, scope_id: u32 },
}

/// What an address denotes: its family, address bytes, port and the two
/// IPv6-only fields (zero for IPv4).
pub struct AddrModel {
    pub v6: bool,
    pub ip: Seq<u8>,
    pub port: u16,
    pub flowinfo: u32,
    pub scope_id: u32,
}

impl View for SockAddr {
    type V = AddrModel;

    open spec fn view(&self) -> AddrModel {
        match *self {
            SockAddr::V4 { ip, port } => AddrModel { v6: false, ip: ip@, port, flowinfo: 0, scope_id: 0 },
            SockAddr::V6 { ip, port, flowinfo, scope_id } => AddrModel { v6: true, ip: ip@, port, flowinfo, scope_id },
        }
    }
}

/// The size of the wire structure that holds an address of this family.
pub open spec fn wire_size(v6: bool) -> u32 {
    if v6 { SOCKADDR_IN6_SIZE } else { SOCKADDR_IN_SIZE }
}

/// The two bytes of a port in network byte order.
pub open spec fn port_bytes(port: u16) -> Seq<u8> {
    seq![(port >> 8u16) as u8, (port & 0xff) as u8]
}

/// The port whose network-order bytes are `hi` and `lo`.
pub open spec fn port_of(hi: u8, lo: u8) -> u16 {
    ((hi as u16) << 8u16) | (lo as u16)
}

/// The wire structure written for an address. The IPv6 flow info and scope
/// id are written as zero.
pub open spec fn wire_encode(a: AddrModel) -> Seq<u8> {
    if a.v6 {
        seq![(AF_INET6 & 0xff) as u8, (AF_INET6 >> 8u16) as u8] + port_bytes(a.port)
            + seq![0u8, 0u8, 0u8, 0u8] + a.ip + seq![0u8, 0u8, 0u8, 0u8]
    } else {
        seq![(AF_INET & 0xff) as u8, (AF_INET >> 8u16) as u8] + port_bytes(a.port) + a.ip
            + Seq::new(8, |_i: int| 0u8)
    }
}

/// The address that a wire structure of 16 or 28 bytes denotes. The family
/// field is not consulted: the size decides.
pub open spec fn wire_decode(b: Seq<u8>) -> AddrModel {
    if b.len() == SOCKADDR_IN_SIZE {
        AddrModel { v6: false, ip: b.subrange(4, 8), port: port_of(b[2], b[3]), flowinfo: 0, scope_id: 0 }
    } else {
        AddrModel {
            v6: true,
            ip: b.subrange(8, 24),
            port: port_of(b[2], b[3]),
            flowinfo: le_u32(b.subrange(4, 8)),
            scope_id: le_u32(b.subrange(24, 28)),
        }
    }
}

impl SockAddr {
    pub fn is_v6(&self) -> (r: bool)
        ensures
            r == self@.v6,
    {
        match self {
            SockAddr::V4 { .. } => false,
            SockAddr::V6 { .. } => true,
        }
    }

    pub fn port(&self) -> (r: u16)
        ensures
            r == self@.port,
    {
        match self {
            SockAddr::V4 { port, .. } => *port,
            SockAddr::V6 { port, .. } => *port,
        }
    }
}

proof fn lemma_port_round_trip(port: u16)
    ensures
        port_of(port_bytes(port)[0], port_bytes(port)[1]) == port,
{
    let hi = (port >> 8u16) as u8;
    let lo = (port & 0xff) as u8;
    assert((port >> 8u16) < 256u16) by (bit_vector);
    assert((port & 0xffu16) < 256u16) by (bit_vector);
    assert(hi as u16 == port >> 8u16);
    assert(lo as u16 == port & 0xffu16);
    assert((((port >> 8u16) << 8u16) | (port & 0xffu16)) == port) by (bit_vector);
}

/// Encoding an address into its wire structure and decoding that structure
/// gives back the same family, address bytes and port.
pub proof fn lemma_wire_round_trip(a: SockAddr)
    ensures
        wire_encode(a@).len() == wire_size(a@.v6),
        wire_decode(wire_encode(a@)).v6 == a@.v6,
        wire_decode(wire_encode(a@)).ip == a@.ip,
        wire_decode(wire_encode(a@)).port == a@.port,
{
    lemma_port_round_trip(a@.port);
    let e = wire_encode(a@);
    if a@.v6 {
        assert(e.subrange(8, 24) =~= a@.ip);
    } else {
        assert(e.subrange(4, 8) =~= a@.ip);
    }
}

/// What reading a wire structure of `size` bytes at `ptr` of memory `m`
/// gives: `Inval` for a size other than 16 or 28, `Fault` for a structure
/// outside memory, else the address it holds.
pub open spec fn decode_outcome(m: Seq<u8>, ptr: u32, size: u32) -> Result<AddrModel, Errno> {
    if size != SOCKADDR_IN_SIZE && size != SOCKADDR_IN6_SIZE {
        Err(Errno::Inval)
    } else if !in_bounds(ptr as int, size as int, m.len() as int) {
        Err(Errno::Fault)
    } else {
        Ok(wire_decode(m.subrange(ptr as int, ptr + size)))
    }
}

/// Reads the wire structure of `size` bytes at `ptr`. Sizes other than 16
/// and 28 are refused with `Inval`; a structure outside memory with `Fault`.
pub fn decode_socket_addr(memory: &GuestMemory, ptr: u32, size: u32) -> (r: Result<SockAddr, Errno>)
    ensures
        size != SOCKADDR_IN_SIZE && size != SOCKADDR_IN6_SIZE ==> r == Err::<SockAddr, Errno>(Errno::Inval),
        (size == SOCKADDR_IN_SIZE || size == SOCKADDR_IN6_SIZE) ==> {
            &&& r.is_ok() <==> in_bounds(ptr as int, size as int, memory@.len() as int)
            &&& r matches Ok(a) ==> a@ == wire_decode(memory@.subrange(ptr as int, ptr + size))
                && a@.v6 == (size == SOCKADDR_IN6_SIZE)
            &&& r matches Err(e) ==> e == Errno::Fault
        },
        r matches Ok(a) ==> decode_outcome(memory@, ptr, size) == Ok::<AddrModel, Errno>(a@),
        r matches Err(e) ==> decode_outcome(memory@, ptr, size) == Err::<AddrModel, Errno>(e),
{
    if size == SOCKADDR_IN_SIZE {
        let b = memory.read_bytes(ptr, size)?;
        let ip: [u8; 4] = [b[4], b[5], b[6], b[7]];
        let port: u16 = ((b[2] as u16) << 8u16) | (b[3] as u16);
        let a = SockAddr::V4 { ip, port };
        assert(a@.ip =~= b@.subrange(4, 8));
        Ok(a)
    } else if size == SOCKADDR_IN6_SIZE {
        let b = memory.read_bytes(ptr, size)?;
        let ip: [u8; 16] = [
            b[8], b[9], b[10], b[11], b[12], b[13], b[14], b[15],
            b[16], b[17], b[18], b[19], b[20], b[21], b[22], b[23],
        ];
        let port: u16 = ((b[2] as u16) << 8u16) | (b[3] as u16);
        let flowinfo: u32 = (b[4] as u32) | ((b[5] as u32) << 8u32) | ((b[6] as u32) << 16u32) | ((b[7] as u32) << 24u32);
        let scope_id: u32 = (b[24] as u32) | ((b[25] as u32) << 8u32) | ((b[26] as u32) << 16u32) | ((b[27] as u32) << 24u32);
        let a = SockAddr::V6 { ip, port, flowinfo, scope_id };
        assert(a@.ip =~= b@.subrange(8, 24));
        Ok(a)
    } else {
        Err(Errno::Inval)
    }
}

/// Writes the wire structure of `addr` at `ptr` and returns its size. The
/// guest's buffer must be exactly the size of that structure, else `Inval`;
/// a structure outside memory gives `Fault`. Memory is unchanged on error.
pub fn encode_socket_addr(memory: &mut GuestMemory, ptr: u32, size: u32, addr: SockAddr) -> (r: Result<u32, Errno>)
    ensures
        size != wire_size(addr@.v6) ==> r == Err::<u32, Errno>(Errno::Inval),
        size == wire_size(addr@.v6) ==> (r.is_ok() <==> in_bounds(ptr as int, size as int, old(memory)@.len() as int)),
        size == wire_size(addr@.v6) && !in_bounds(ptr as int, size as int, old(memory)@.len() as int) ==> r == Err::<u32, Errno>(Errno::Fault),
        r matches Ok(n) ==> n == size && final(memory)@ == splice(old(memory)@, ptr as int, wire_encode(addr@)),
        r matches Err(e) ==> (e == Errno::Inval || e == Errno::Fault) && *final(memory) == *old(memory),
{
    match addr {
        SockAddr::V4 { ip, port } => {
            if size != SOCKADDR_IN_SIZE {
                return Err(Errno::Inval);
            }
            let data: [u8; 16] = [
                (AF_INET & 0xff) as u8, (AF_INET >> 8u16) as u8,
                (port >> 8u16) as u8, (port & 0xff) as u8,
                ip[0], ip[1], ip[2], ip[3],
                0, 0, 0, 0, 0, 0, 0, 0,
            ];
            assert(data@ =~= wire_encode(addr@));
            memory.write_bytes(ptr, &data)?;
            Ok(SOCKADDR_IN_SIZE)
        },
        SockAddr::V6 { ip, port, .. } => {
            if size != SOCKADDR_IN6_SIZE {
                return Err(Errno::Inval);
            }
            let data: [u8; 28] = [
                (AF_INET6 & 0xff) as u8, (AF_INET6 >> 8u16) as u8,
                (port >> 8u16) as u8, (port & 0xff) as u8,
                0, 0, 0, 0,
                ip[0], ip[1], ip[2], ip[3], ip[4], ip[5], ip[6], ip[7],
                ip[8], ip[9], ip[10], ip[11], ip[12], ip[13], ip[14], ip[15],
                0, 0, 0, 0,
            ];
            assert(data@ =~= wire_encode(addr@));
            memory.write_bytes(ptr, &data)?;
            Ok(SOCKADDR_IN6_SIZE)
        },
    }
}

/// Encoding an address into guest memory and decoding it from the same
/// place reproduces its family, address bytes and port.
pub proof fn lemma_memory_round_trip(m0: Seq<u8>, ptr: u32, a: SockAddr)
    requires
        in_bounds(ptr as int, wire_size(a@.v6) as int, m0.len() as int),
    ensures
        ({
            let m1 = splice(m0, ptr as int, wire_encode(a@));
            let d = wire_decode(m1.subrange(ptr as int, ptr + wire_size(a@.v6)));
            &&& m1.len() == m0.len()
            &&& d.v6 == a@.v6
            &&& d.ip == a@.ip
            &&& d.port == a@.port
        }),
{
    lemma_wire_round_trip(a);
    let e = wire_encode(a@);
    let m1 = splice(m0, ptr as int, e);
    assert(m1.subrange(ptr as int, ptr + wire_size(a@.v6)) =~= e);
}

} // verus!
