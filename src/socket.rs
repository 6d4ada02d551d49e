//! The protocol state of one channel: the sequence counter and the process
//! id that requests carry. Sending and receiving the datagrams is the
//! caller's part; this side frames each request and decodes each reply.

use vstd::prelude::*;
use crate::control::{ControlAttributes, ControlMessage, Frame};
use crate::error::Error;
use crate::flags::ACK_REQUEST;
use crate::flags::MULTI;
use crate::header::{parse_header, Header, HEADER_LEN, MSG_ERROR};
use crate::wire::u32_at;
use crate::reply::{
    decode_reply, family_from_reply, family_outcome, magnitude, reply_outcome, signed32, Reply,
};

verus! {

/// The counter after one more request: it wraps after `u32::MAX`.
pub open spec fn next_seq(seq: u32) -> u32 {
    if seq == u32::MAX {
        0
    } else {
        (seq + 1) as u32
    }
}

/// The counter after `n` requests from `start`.
pub open spec fn seq_after(start: u32, n: nat) -> u32
    decreases n,
{
    if n == 0 {
        start
    } else {
        next_seq(seq_after(start, (n - 1) as nat))
    }
}

/// The datagram of a request: a header for `body` with the given family,
/// sequence number and process id, asking for an acknowledgement, then the
/// body.
pub open spec fn request_wire(family: u16, seq: u32, pid: u32, body: Seq<u8>) -> Seq<u8> {
    Header {
        len: (HEADER_LEN + body.len()) as u32,
        ty: family,
        flags: ACK_REQUEST,
        seq,
        pid,
    }.wire() + body
}

/// The largest body that a header's 32-bit length can cover.
pub const MAX_BODY: usize = 0xffff_ffef;

/// What a family lookup yields for the datagram `d`: the reply's error
/// where it is one, else the family id it carries.
pub open spec fn resolve_outcome(d: Seq<u8>) -> Result<u16, Error> {
    match reply_outcome(d) {
        Err(e) => Err(e),
        Ok(rep) => family_outcome(rep),
    }
}

/// The protocol state of one channel.
#[derive(Debug)]
pub struct Socket {
    seq: u32,
    pid: u32,
}

impl Socket {
    /// The sequence number the next request will carry.
    pub closed spec fn spec_seq(&self) -> u32 {
        self.seq
    }

    /// The process id requests carry.
    pub closed spec fn spec_pid(&self) -> u32 {
        self.pid
    }

    /// A fresh channel for the process `pid`: its counter starts at zero.
    pub fn new(pid: u32) -> (s: Socket)
        ensures
            s.spec_seq() == 0,
            s.spec_pid() == pid,
    {
        Socket { seq: 0, pid }
    }

    pub fn seq(&self) -> (r: u32)
        ensures
            r == self.spec_seq(),
    {
        self.seq
    }

    pub fn pid(&self) -> (r: u32)
        ensures
            r == self.spec_pid(),
    {
        self.pid
    }

    /// Frames `frame` as the next request. On success the counter moves on
    /// by one; on an error nothing changes.
    pub fn request<F: Frame>(&mut self, frame: &F) -> (r: Result<Vec<u8>, Error>)
        ensures
            match frame.packed() {
                Ok(b) => if b.len() <= MAX_BODY {
                    r matches Ok(d) && d@ == request_wire(
                        frame.spec_family(),
                        old(self).spec_seq(),
                        old(self).spec_pid(),
                        b,
                    ) && final(self).spec_seq() == next_seq(old(self).spec_seq())
                } else {
                    r == Err::<Vec<u8>, Error>(Error::TooLong)
                },
                Err(e) => r == Err::<Vec<u8>, Error>(e),
            },
            r is Err ==> final(self).spec_seq() == old(self).spec_seq(),
            final(self).spec_pid() == old(self).spec_pid(),
    {
        let mut body: Vec<u8> = Vec::new();
        match frame.pack(&mut body) {
            Ok(_) => {},
            Err(e) => {
                return Err(e);
            },
        }
        if body.len() > MAX_BODY {
            return Err(Error::TooLong);
        }
        let header = Header {
            len: (HEADER_LEN + body.len()) as u32,
            ty: frame.family(),
            flags: ACK_REQUEST,
            seq: self.seq,
            pid: self.pid,
        };
        let mut datagram: Vec<u8> = Vec::new();
        header.pack(&mut datagram);
        datagram.append(&mut body);
        self.seq = if self.seq == u32::MAX {
            0
        } else {
            self.seq + 1
        };
        Ok(datagram)
    }

    /// Frames the lookup of the family called `name`.
    pub fn family_request(&mut self, name: &str) -> (r: Result<Vec<u8>, Error>)
        ensures
            ({
                let m = ControlMessage::GetFamily(
                    ControlAttributes { family_id: None, family_name: Some(name) },
                );
                match m.packed() {
                    Ok(b) => r matches Ok(d) && d@ == request_wire(
                        m.spec_family(),
                        old(self).spec_seq(),
                        old(self).spec_pid(),
                        b,
                    ) && final(self).spec_seq() == next_seq(old(self).spec_seq()),
                    Err(e) => r == Err::<Vec<u8>, Error>(e),
                }
            }),
            r is Err ==> final(self).spec_seq() == old(self).spec_seq(),
            final(self).spec_pid() == old(self).spec_pid(),
    {
        let m = ControlMessage::GetFamily(
            ControlAttributes { family_id: None, family_name: Some(name) },
        );
        self.request(&m)
    }

    /// Reads the family id out of the reply to a lookup, the datagram of
    /// `received` bytes at the start of `buf`. An error reply is handed on
    /// as it came.
    pub fn resolve_family(&self, buf: &[u8], received: usize) -> (r: Result<u16, Error>)
        ensures
            received > buf@.len() ==> r == Err::<u16, Error>(Error::TooLong),
            received <= buf@.len() ==> r == resolve_outcome(buf@.subrange(0, received as int)),
    {
        let reply: Reply = match decode_reply(buf, received) {
            Ok(rep) => rep,
            Err(e) => {
                return Err(e);
            },
        };
        family_from_reply(&reply)
    }
}

/// A lookup answered by an error reply yields that reply's error and no
/// family id: a reply whose header says "error" and whose code is not zero
/// gives the kernel's error number.
pub proof fn lemma_error_reply_propagates(d: Seq<u8>)
    requires
        d.len() >= HEADER_LEN + 4,
        HEADER_LEN + 4 <= parse_header(d).len <= d.len(),
        parse_header(d).flags & MULTI == 0,
        parse_header(d).ty == MSG_ERROR,
        signed32(u32_at(d, HEADER_LEN as int)) != 0,
    ensures
        resolve_outcome(d) == Err::<u16, Error>(
            Error::Kernel(magnitude(signed32(u32_at(d, HEADER_LEN as int)) as i32) as u32),
        ),
{
    crate::reply::lemma_error_reply_outcome(d);
}

/// The counter after `n` requests is the start plus `n`, modulo 2^32; so
/// where that does not pass `u32::MAX` it is the start plus `n`.
pub proof fn lemma_seq_after(start: u32, n: nat)
    ensures
        seq_after(start, n) as int == (start + n) % 0x1_0000_0000,
        start + n <= u32::MAX ==> seq_after(start, n) == start + n,
    decreases n,
{
    if n > 0 {
        lemma_seq_after(start, (n - 1) as nat);
    }
}

/// Requests framed one after another carry increasing, hence distinct,
/// sequence numbers, as long as the counter does not wrap.
pub proof fn lemma_sequence_numbers_increase(start: u32, n: nat)
    requires
        start + n <= u32::MAX,
    ensures
        forall|i: nat, j: nat|
            i < j <= n ==> #[trigger] seq_after(start, i) < #[trigger] seq_after(start, j),
{
    assert forall|i: nat, j: nat| i < j <= n implies #[trigger] seq_after(start, i)
        < #[trigger] seq_after(start, j) by {
        lemma_seq_after(start, i);
        lemma_seq_after(start, j);
    }
}

} // verus!
