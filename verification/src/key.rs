//! Flow keys for the kernel lookup map.
//!
//! A key pairs an IPv4 address with a port, both held in 32-bit fields laid
//! out exactly as the stream-verdict program reads them out of segment
//! metadata. The byte-order discipline is asymmetric on purpose: the kernel
//! exposes a segment's remote port in network byte order and its local port
//! in host byte order, so the key that will be matched against a remote
//! endpoint swaps the port bytes and the key matched against a local
//! endpoint does not.

use vstd::prelude::*;

verus! {

/// Capacity of both kernel maps: slots range over `[0, MAPPING_CAPACITY)`.
pub const MAPPING_CAPACITY: usize = 10240;

/// The bytes of a 16-bit value in network order, as seen by a little-endian
/// host: the two bytes swapped.
pub open spec fn net16(p: u16) -> u16 {
    ((p & 0x00ff) << 8) | (p >> 8)
}

/// The bytes of a 32-bit value in network order, as seen by a little-endian
/// host: the four bytes reversed.
pub open spec fn net32(x: u32) -> u32 {
    ((x & 0x0000_00ff) << 24) | ((x & 0x0000_ff00) << 8) | ((x >> 8) & 0x0000_ff00) | (x >> 24)
}

/// Swap the bytes of a 16-bit value.
pub fn to_net16(p: u16) -> (r: u16)
    ensures
        r == net16(p),
{
    proof {
        assert(((p & 0x00ff) << 8) < 0x10000 && (p >> 8) < 0x100) by (bit_vector);
    }
    ((p & 0x00ff) << 8) | (p >> 8)
}

/// Reverse the bytes of a 32-bit value.
pub fn to_net32(x: u32) -> (r: u32)
    ensures
        r == net32(x),
{
    ((x & 0x0000_00ff) << 24) | ((x & 0x0000_ff00) << 8) | ((x >> 8) & 0x0000_ff00) | (x >> 24)
}

/// Key of the kernel lookup map: an IPv4 address and a port, each in a
/// 32-bit field, compared byte-for-byte by the kernel.
#[derive(Clone, Copy, Debug, PartialEq, Eq, Structural)]
pub struct IdxMapKey {
    pub addr: u32,
    pub port: u32,
}

impl IdxMapKey {
    /// The key packed into one integer; injective, so it can stand for the
    /// key wherever a primitive map key is required.
    pub open spec fn as_u64(self) -> u64 {
        ((self.addr as u64) << 32) | (self.port as u64)
    }

    /// Pack the key into one integer.
    pub fn encode(self) -> (r: u64)
        ensures
            r == self.as_u64(),
    {
        ((self.addr as u64) << 32) | (self.port as u64)
    }

    /// Key for matching a connection's *remote* endpoint: both the address
    /// and the port go to network byte order, the port inside a 32-bit
    /// field, as the kernel presents a segment's remote port.
    pub fn remote(ip_host: u32, port: u16) -> (k: IdxMapKey)
        ensures
            k.addr == net32(ip_host),
            k.port == net32(port as u32),
    {
        IdxMapKey { addr: to_net32(ip_host), port: to_net32(port as u32) }
    }

    /// Key for matching a connection's *local* endpoint: the address goes to
    /// network byte order but the port stays in host byte order, as the
    /// kernel presents a segment's local port.
    pub fn local(ip_host: u32, port: u16) -> (k: IdxMapKey)
        ensures
            k.addr == net32(ip_host),
            k.port == port as u32,
    {
        IdxMapKey { addr: to_net32(ip_host), port: port as u32 }
    }
}

/// Packing a key into one integer loses nothing: two keys are equal
/// exactly when their packings are.
pub proof fn lemma_encode_injective(k1: IdxMapKey, k2: IdxMapKey)
    ensures
        k1.as_u64() == k2.as_u64() <==> k1 == k2,
{
    let a1 = k1.addr;
    let p1 = k1.port;
    let a2 = k2.addr;
    let p2 = k2.port;
    assert((((a1 as u64) << 32) | (p1 as u64)) == (((a2 as u64) << 32) | (p2 as u64)) ==> a1 == a2
        && p1 == p2) by (bit_vector);
}

/// Swapping the bytes of a 16-bit value twice gives the value back.
pub proof fn lemma_net16_involutive(p: u16)
    ensures
        net16(net16(p)) == p,
{
    assert(((((p & 0x00ff) << 8) | (p >> 8)) & 0x00ff) << 8 | ((((p & 0x00ff) << 8) | (p >> 8))
        >> 8) == p) by (bit_vector);
}

/// Reversing the bytes of a 32-bit value twice gives the value back.
pub proof fn lemma_net32_involutive(x: u32)
    ensures
        net32(net32(x)) == x,
{
    let y = ((x & 0x0000_00ff) << 24) | ((x & 0x0000_ff00) << 8) | ((x >> 8) & 0x0000_ff00) | (x
        >> 24);
    assert(((y & 0x0000_00ff) << 24) | ((y & 0x0000_ff00) << 8) | ((y >> 8) & 0x0000_ff00) | (y
        >> 24) == x) by (bit_vector)
        requires
            y == ((x & 0x0000_00ff) << 24) | ((x & 0x0000_ff00) << 8) | ((x >> 8) & 0x0000_ff00) | (
            x >> 24),
    ;
}

/// Reversing the bytes of a 32-bit value loses nothing: two values are
/// equal exactly when their reversals are.
pub proof fn lemma_net32_injective(x: u32, y: u32)
    ensures
        net32(x) == net32(y) <==> x == y,
{
    if net32(x) == net32(y) {
        lemma_net32_involutive(x);
        lemma_net32_involutive(y);
    }
}

/// Byte-order law for the two key variants built from the same port: the
/// remote-side key holds the port's network-order bytes, which are the
/// 16-bit byte swap shifted into the upper half of the 32-bit field, while
/// the local-side key holds the port unchanged.
pub proof fn lemma_port_byte_order(p: u16)
    ensures
        net32(p as u32) == (net16(p) as u32) << 16,
        (p as u32) == p,
{
    assert((((p as u32) & 0x0000_00ff) << 24) | (((p as u32) & 0x0000_ff00) << 8) | (((p as u32)
        >> 8) & 0x0000_ff00) | ((p as u32) >> 24) == ((((p & 0x00ff) << 8) | (p >> 8)) as u32)
        << 16) by (bit_vector);
}

} // verus!
