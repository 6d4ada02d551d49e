//! Fixed-width integers on the wire, written and read low byte first. The
//! kernel reads this protocol in the host's byte order, so this encoding
//! serves little-endian hosts.

use vstd::prelude::*;
use byteorder::{ByteOrder, LittleEndian};

verus! {

/// The two bytes of `v`, low byte first.
pub open spec fn le16(v: u16) -> Seq<u8> {
    seq![(v % 256) as u8, (v / 256) as u8]
}

/// The four bytes of `v`, low byte first.
pub open spec fn le32(v: u32) -> Seq<u8> {
    seq![(v % 256) as u8, ((v / 256) % 256) as u8, ((v / 65536) % 256) as u8, (v / 16777216) as u8]
}

/// The value of the first two bytes of `b`, low byte first.
pub open spec fn u16_at(b: Seq<u8>, i: int) -> int {
    b[i] + 256 * b[i + 1]
}

/// The value of the four bytes of `b` from `i` on, low byte first.
pub open spec fn u32_at(b: Seq<u8>, i: int) -> int {
    b[i] + 256 * b[i + 1] + 65536 * b[i + 2] + 16777216 * b[i + 3]
}

/// Reading back what `le16` wrote gives the value.
pub proof fn lemma_le16_round_trip(v: u16)
    ensures
        le16(v).len() == 2,
        u16_at(le16(v), 0) == v,
{
    assert(v == (v % 256) + 256 * (v / 256)) by (nonlinear_arith);
}

/// Reading back what `le32` wrote gives the value.
pub proof fn lemma_le32_round_trip(v: u32)
    ensures
        le32(v).len() == 4,
        u32_at(le32(v), 0) == v,
{
    let a = v / 256;
    let b = a / 256;
    let c = b / 256;
    assert(v == (v % 256) + 256 * a) by (nonlinear_arith)
        requires
            a == v / 256,
    ;
    assert(a == (a % 256) + 256 * b) by (nonlinear_arith)
        requires
            b == a / 256,
    ;
    assert(b == (b % 256) + 256 * c) by (nonlinear_arith)
        requires
            c == b / 256,
    ;
    assert(b == v / 65536) by (nonlinear_arith) requires b == (v / 256) / 256;
    assert(c == v / 16777216) by (nonlinear_arith) requires c == ((v / 256) / 256) / 256;
}

/// Relies on byteorder's `LittleEndian::write_u16`: it copies
/// `v.to_le_bytes()` into the first two bytes of the buffer.
#[verifier::external_body]
fn ne_u16_bytes(v: u16) -> (r: [u8; 2])
    ensures
        r@ == le16(v),
{
    let mut b = [0u8; 2];
    LittleEndian::write_u16(&mut b, v);
    b
}

/// Relies on byteorder's `LittleEndian::write_u32`: it copies
/// `v.to_le_bytes()` into the first four bytes of the buffer.
#[verifier::external_body]
fn ne_u32_bytes(v: u32) -> (r: [u8; 4])
    ensures
        r@ == le32(v),
{
    let mut b = [0u8; 4];
    LittleEndian::write_u32(&mut b, v);
    b
}

/// Relies on byteorder's `LittleEndian::read_u16`: `u16::from_le_bytes` of
/// the first two bytes.
#[verifier::external_body]
fn ne_read_u16(b: [u8; 2]) -> (r: u16)
    ensures
        r == u16_at(b@, 0),
{
    LittleEndian::read_u16(&b)
}

/// Relies on byteorder's `LittleEndian::read_u32`: `u32::from_le_bytes` of
/// the first four bytes.
#[verifier::external_body]
fn ne_read_u32(b: [u8; 4]) -> (r: u32)
    ensures
        r == u32_at(b@, 0),
{
    LittleEndian::read_u32(&b)
}

/// Appends the two bytes of `v`.
pub fn push_u16(buf: &mut Vec<u8>, v: u16)
    ensures
        final(buf)@ == old(buf)@ + le16(v),
{
    let b = ne_u16_bytes(v);
    buf.push(b[0]);
    buf.push(b[1]);
}

/// Appends the four bytes of `v`.
pub fn push_u32(buf: &mut Vec<u8>, v: u32)
    ensures
        final(buf)@ == old(buf)@ + le32(v),
{
    let b = ne_u32_bytes(v);
    buf.push(b[0]);
    buf.push(b[1]);
    buf.push(b[2]);
    buf.push(b[3]);
}

/// The 16-bit value stored at `at`.
pub fn read_u16(buf: &[u8], at: usize) -> (r: u16)
    requires
        at + 2 <= buf@.len(),
    ensures
        r == u16_at(buf@, at as int),
{
    ne_read_u16([buf[at], buf[at + 1]])
}

/// The 32-bit value stored at `at`.
pub fn read_u32(buf: &[u8], at: usize) -> (r: u32)
    requires
        at + 4 <= buf@.len(),
    ensures
        r == u32_at(buf@, at as int),
{
    ne_read_u32([buf[at], buf[at + 1], buf[at + 2], buf[at + 3]])
}

} // verus!
