//! Decoding of packed socket-address records.
//!
//! A record is held as its raw bytes, laid out as `sockaddr_in` or
//! `sockaddr_in6`: the port in bytes 2..4, an IPv4 address in bytes 4..8,
//! an IPv6 address in bytes 8..24.
use vstd::prelude::*;
use crate::model::SocketAddress;

verus! {

/// Bytes needed for an IPv4 record.
pub const SOCKADDR_IN_LEN: usize = 8;
/// Bytes needed for an IPv6 record.
pub const SOCKADDR_IN6_LEN: usize = 24;

/// The 16-bit value stored little-endian in two bytes.
pub open spec fn le16(lo: u8, hi: u8) -> u16 {
    (lo as u16 | (hi as u16) << 8u16) as u16
}

/// The 32-bit value stored little-endian in four bytes.
pub open spec fn le32(b0: u8, b1: u8, b2: u8, b3: u8) -> u32 {
    (b0 as u32 | (b1 as u32) << 8u32 | (b2 as u32) << 16u32 | (b3 as u32) << 24u32) as u32
}

/// The dotted-decimal octets of an address held in network byte order in a
/// 32-bit value: the least significant byte is the first octet.
pub open spec fn octets_spec(s_addr: u32) -> [u8; 4] {
    [
        (s_addr & 0xffu32) as u8,
        ((s_addr >> 8u32) & 0xffu32) as u8,
        ((s_addr >> 16u32) & 0xffu32) as u8,
        ((s_addr >> 24u32) & 0xffu32) as u8,
    ]
}

/// One IPv6 group from the two bytes that hold it, first byte high.
pub open spec fn group_spec(hi: u8, lo: u8) -> u16 {
    (hi as u16 * 256 + lo as u16) as u16
}

/// The eight groups of the IPv6 address held in `b[off..off + 16]`.
pub open spec fn groups_spec(b: Seq<u8>, off: int) -> [u16; 8] {
    [
        group_spec(b[off], b[off + 1]),
        group_spec(b[off + 2], b[off + 3]),
        group_spec(b[off + 4], b[off + 5]),
        group_spec(b[off + 6], b[off + 7]),
        group_spec(b[off + 8], b[off + 9]),
        group_spec(b[off + 10], b[off + 11]),
        group_spec(b[off + 12], b[off + 13]),
        group_spec(b[off + 14], b[off + 15]),
    ]
}

/// The port stored in a record.
pub open spec fn port_spec(b: Seq<u8>) -> u16 {
    le16(b[2], b[3])
}

/// The IPv4 address of a record of at least [`SOCKADDR_IN_LEN`] bytes.
pub open spec fn v4_spec(b: Seq<u8>, port: u16) -> SocketAddress {
    SocketAddress::V4 { ip: octets_spec(le32(b[4], b[5], b[6], b[7])), port }
}

/// The IPv6 address of a record of at least [`SOCKADDR_IN6_LEN`] bytes.
pub open spec fn v6_spec(b: Seq<u8>, port: u16, scope_id: u32) -> SocketAddress {
    SocketAddress::V6 { ip: groups_spec(b, 8), port, scope_id }
}

/// Splits a 32-bit value held in network byte order into its octets.
pub fn ipv4_octets(s_addr: u32) -> (r: [u8; 4])
    ensures
        r == octets_spec(s_addr),
{
    [
        (s_addr & 0xff) as u8,
        ((s_addr >> 8) & 0xff) as u8,
        ((s_addr >> 16) & 0xff) as u8,
        ((s_addr >> 24) & 0xff) as u8,
    ]
}

/// Reads the 16-bit value stored little-endian at `b[off..off + 2]`.
pub fn read_u16_le(b: &Vec<u8>, off: usize) -> (r: u16)
    requires
        off + 2 <= b@.len(),
    ensures
        r == le16(b@[off as int], b@[off + 1]),
{
    let n = b.len();
    b[off] as u16 | (b[off + 1] as u16) << 8
}

/// Reads the 32-bit value stored little-endian at `b[off..off + 4]`.
pub fn read_u32_le(b: &Vec<u8>, off: usize) -> (r: u32)
    requires
        off + 4 <= b@.len(),
    ensures
        r == le32(b@[off as int], b@[off + 1], b@[off + 2], b@[off + 3]),
{
    let n = b.len();
    b[off] as u32 | (b[off + 1] as u32) << 8 | (b[off + 2] as u32) << 16 | (b[off + 3] as u32)
        << 24
}

/// Reads the IPv6 group stored at `b[off..off + 2]`, first byte high.
pub fn read_group(b: &Vec<u8>, off: usize) -> (r: u16)
    requires
        off + 2 <= b@.len(),
    ensures
        r == group_spec(b@[off as int], b@[off + 1]),
{
    let n = b.len();
    let hi = b[off] as u16;
    let lo = b[off + 1] as u16;
    assert(hi * 256 + lo <= 65535) by (nonlinear_arith)
        requires
            hi <= 255,
            lo <= 255,
    ;
    hi * 256 + lo
}

/// Decodes the IPv4 address of a record, with the given port; `None` when
/// the record is too short to hold one.
pub fn decode_v4(b: &Vec<u8>, port: u16) -> (r: Option<SocketAddress>)
    ensures
        b@.len() >= SOCKADDR_IN_LEN ==> r == Some(v4_spec(b@, port)),
        b@.len() < SOCKADDR_IN_LEN ==> r.is_none(),
{
    if b.len() < SOCKADDR_IN_LEN {
        return None;
    }
    let s_addr = read_u32_le(b, 4);
    Some(SocketAddress::V4 { ip: ipv4_octets(s_addr), port })
}

/// Decodes the IPv6 address of a record, with the given port and scope id;
/// `None` when the record is too short to hold one.
pub fn decode_v6(b: &Vec<u8>, port: u16, scope_id: u32) -> (r: Option<SocketAddress>)
    ensures
        b@.len() >= SOCKADDR_IN6_LEN ==> r == Some(v6_spec(b@, port, scope_id)),
        b@.len() < SOCKADDR_IN6_LEN ==> r.is_none(),
{
    if b.len() < SOCKADDR_IN6_LEN {
        return None;
    }
    let ip: [u16; 8] = [
        read_group(b, 8),
        read_group(b, 10),
        read_group(b, 12),
        read_group(b, 14),
        read_group(b, 16),
        read_group(b, 18),
        read_group(b, 20),
        read_group(b, 22),
    ];
    Some(SocketAddress::V6 { ip, port, scope_id })
}

/// Reads the port of a record; `0` when the record is too short to hold one.
pub fn read_port(b: &Vec<u8>) -> (r: u16)
    ensures
        b@.len() >= 4 ==> r == port_spec(b@),
        b@.len() < 4 ==> r == 0,
{
    if b.len() < 4 {
        0
    } else {
        read_u16_le(b, 2)
    }
}

/// An IPv4 address whose bytes `[a, b, c, d]` are stored as a little-endian
/// 32-bit value decodes to the address `a.b.c.d`: byte 0 is the first octet.
pub proof fn lemma_ipv4_byte_order(a: u8, b: u8, c: u8, d: u8)
    ensures
        octets_spec(le32(a, b, c, d)) == [a, b, c, d],
{
    let v = le32(a, b, c, d);
    assert((v & 0xffu32) as u8 == a && ((v >> 8u32) & 0xffu32) as u8 == b
        && ((v >> 16u32) & 0xffu32) as u8 == c && ((v >> 24u32) & 0xffu32) as u8 == d) by (bit_vector)
        requires
            v == (a as u32 | (b as u32) << 8u32 | (c as u32) << 16u32 | (d as u32) << 24u32) as u32,
    ;
    assert(octets_spec(v)@ =~= [a, b, c, d]@);
}

/// Every IPv4 record decodes to the four address bytes it holds, in the
/// order in which they are stored.
pub proof fn lemma_decode_v4_keeps_bytes(b: Seq<u8>, port: u16)
    requires
        b.len() >= SOCKADDR_IN_LEN,
    ensures
        v4_spec(b, port) == (SocketAddress::V4 { ip: [b[4], b[5], b[6], b[7]], port }),
{
    lemma_ipv4_byte_order(b[4], b[5], b[6], b[7]);
}

/// Every IPv6 record decodes to the eight groups formed by its sixteen
/// address bytes taken in pairs in the order in which they are stored, the
/// first byte of each pair high.
pub proof fn lemma_ipv6_byte_order(b: Seq<u8>, port: u16, scope_id: u32)
    requires
        b.len() >= SOCKADDR_IN6_LEN,
    ensures
        forall|i: int|
            #![trigger groups_spec(b, 8)@[i]]
            0 <= i < 8 ==> groups_spec(b, 8)@[i] as int == b[8 + 2 * i] as int * 256 + b[9 + 2 * i] as int,
        v6_spec(b, port, scope_id) == (SocketAddress::V6 { ip: groups_spec(b, 8), port, scope_id }),
{
    assert forall|i: int| 0 <= i < 8 implies #[trigger] groups_spec(b, 8)@[i] as int == b[8 + 2 * i] as int * 256 + b[9 + 2 * i] as int by {
        assert(0 <= b[8 + 2 * i] as int * 256 + b[9 + 2 * i] as int <= 65535) by (nonlinear_arith)
            requires 0 <= b[8 + 2 * i] <= 255, 0 <= b[9 + 2 * i] <= 255;
    }
}

} // verus!
