//! The fixed 16-byte header that starts every message.

use vstd::prelude::*;
use crate::error::Error;
use crate::wire::{le16, le32, u16_at, u32_at, push_u16, push_u32, read_u16, read_u32};

verus! {

/// Length of a message header on the wire.
pub const HEADER_LEN: usize = 16;

/// Message type of a no-op message.
pub const MSG_NOOP: u16 = 1;

/// Message type of an error or acknowledgement reply.
pub const MSG_ERROR: u16 = 2;

/// Message type that ends a multi-part reply.
pub const MSG_DONE: u16 = 3;

/// Message type that reports lost data.
pub const MSG_OVERRUN: u16 = 4;

/// Message types below this one are reserved for the control messages above.
pub const MSG_MIN_TYPE: u16 = 16;

/// A message header.
#[derive(Debug, Clone, Copy, PartialEq, Eq, Structural)]
pub struct Header {
    /// The length of the message in bytes, including the header.
    pub len: u32,
    /// Describes the message content.
    pub ty: u16,
    /// Additional flags.
    pub flags: u16,
    /// The sequence number of the message.
    pub seq: u32,
    /// Process ID of the sender.
    pub pid: u32,
}

/// The header that the first 16 bytes of `b` hold.
pub open spec fn parse_header(b: Seq<u8>) -> Header {
    Header {
        len: u32_at(b, 0) as u32,
        ty: u16_at(b, 4) as u16,
        flags: u16_at(b, 6) as u16,
        seq: u32_at(b, 8) as u32,
        pid: u32_at(b, 12) as u32,
    }
}

impl Header {
    /// The 16 bytes of this header on the wire.
    pub open spec fn wire(self) -> Seq<u8> {
        le32(self.len) + le16(self.ty) + le16(self.flags) + le32(self.seq) + le32(self.pid)
    }

    /// Appends the header's 16 bytes to `buf`.
    pub fn pack(&self, buf: &mut Vec<u8>)
        ensures
            final(buf)@ == old(buf)@ + self.wire(),
    {
        push_u32(buf, self.len);
        push_u16(buf, self.ty);
        push_u16(buf, self.flags);
        push_u32(buf, self.seq);
        push_u32(buf, self.pid);
    }

    /// Reads a header from the first 16 bytes of `buf`.
    pub fn unpack(buf: &[u8]) -> (r: Result<Header, Error>)
        ensures
            buf@.len() >= HEADER_LEN ==> r == Ok::<Header, Error>(parse_header(buf@)),
            buf@.len() < HEADER_LEN ==> r == Err::<Header, Error>(Error::Truncated),
    {
        if buf.len() < HEADER_LEN {
            return Err(Error::Truncated);
        }
        let len = read_u32(buf, 0);
        let ty = read_u16(buf, 4);
        let flags = read_u16(buf, 6);
        let seq = read_u32(buf, 8);
        let pid = read_u32(buf, 12);
        Ok(Header { len, ty, flags, seq, pid })
    }
}

/// Decoding the bytes of an encoded header gives back the header.
pub proof fn lemma_header_round_trip(h: Header)
    ensures
        h.wire().len() == HEADER_LEN,
        parse_header(h.wire()) == h,
{
    crate::wire::lemma_le32_round_trip(h.len);
    crate::wire::lemma_le16_round_trip(h.ty);
    crate::wire::lemma_le16_round_trip(h.flags);
    crate::wire::lemma_le32_round_trip(h.seq);
    crate::wire::lemma_le32_round_trip(h.pid);
    let w = h.wire();
    assert(w.subrange(0, 4) == le32(h.len));
    assert(w.subrange(4, 6) == le16(h.ty));
    assert(w.subrange(6, 8) == le16(h.flags));
    assert(w.subrange(8, 12) == le32(h.seq));
    assert(w.subrange(12, 16) == le32(h.pid));
}

} // verus!
