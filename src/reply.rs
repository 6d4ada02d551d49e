//! What the kernel sends back: acknowledgements, error replies, and the
//! reply that describes a family.

use vstd::prelude::*;
use crate::attr::{attrs_view, find_attr, first_payload, parse_attrs, unpack_attrs};
use crate::control::{CTRL_ATTR_FAMILY_ID, CTRL_CMD_NEWFAMILY, CTRL_FAMILY};
use crate::error::Error;
use crate::flags::MULTI;
use crate::header::{parse_header, Header, HEADER_LEN, MSG_ERROR, MSG_MIN_TYPE};
use crate::wire::{u16_at, u32_at, read_u16, read_u32};

verus! {

/// Size of the buffer a reply is received into; a longer reply is refused.
pub const RECV_BUFFER_LEN: usize = 16384;

/// The value of a 32-bit two's complement pattern `u`.
pub open spec fn signed32(u: int) -> int {
    if u < 0x8000_0000 {
        u
    } else {
        u - 0x1_0000_0000
    }
}

/// The magnitude of an error code.
pub open spec fn magnitude(code: i32) -> int {
    if code < 0 {
        -code
    } else {
        code as int
    }
}

/// The body of an error or acknowledgement reply.
#[derive(Debug, Clone, Copy, PartialEq, Eq, Structural)]
pub struct ErrorMessage {
    /// Zero for an acknowledgement, else the negated error number.
    pub code: i32,
    /// The header of the request that is answered, where the reply holds it.
    pub header: Option<Header>,
}

/// The error message that `b` holds, if it is long enough for the code.
pub open spec fn parse_error_message(b: Seq<u8>) -> Option<ErrorMessage> {
    if b.len() < 4 {
        None
    } else {
        Some(
            ErrorMessage {
                code: signed32(u32_at(b, 0)) as i32,
                header: if b.len() >= 4 + HEADER_LEN {
                    Some(parse_header(b.subrange(4, 4 + HEADER_LEN)))
                } else {
                    None
                },
            },
        )
    }
}

impl ErrorMessage {
    /// Reads the code and, where present, the echoed request header.
    pub fn unpack(body: &[u8]) -> (r: Result<ErrorMessage, Error>)
        ensures
            parse_error_message(body@) matches Some(m) ==> r == Ok::<ErrorMessage, Error>(m),
            parse_error_message(body@) is None ==> r == Err::<ErrorMessage, Error>(Error::Truncated),
    {
        if body.len() < 4 {
            return Err(Error::Truncated);
        }
        let u = read_u32(body, 0);
        let code: i32 = if u < 0x8000_0000 {
            u as i32
        } else {
            ((u - 0x8000_0000) as i32) - 0x7fff_ffff - 1
        };
        let header = if body.len() >= 4 + HEADER_LEN {
            let mut echoed: Vec<u8> = Vec::new();
            let mut i: usize = 4;
            while i < 4 + HEADER_LEN
                invariant
                    4 <= i <= 4 + HEADER_LEN <= body@.len(),
                    echoed@ == body@.subrange(4, i as int),
                decreases 4 + HEADER_LEN - i,
            {
                echoed.push(body[i]);
                i = i + 1;
            }
            match Header::unpack(echoed.as_slice()) {
                Ok(h) => Some(h),
                Err(_) => None,
            }
        } else {
            None
        };
        Ok(ErrorMessage { code, header })
    }

    /// What the reply means: success for a zero code, else the kernel's
    /// error number.
    pub open spec fn outcome(self) -> Result<(), Error> {
        if self.code == 0 {
            Ok(())
        } else {
            Err(Error::Kernel(magnitude(self.code) as u32))
        }
    }

    pub fn result(&self) -> (r: Result<(), Error>)
        ensures
            r == self.outcome(),
    {
        if self.code == 0 {
            Ok(())
        } else if self.code < 0 {
            Err(Error::Kernel(((-(self.code + 1)) as u32) + 1))
        } else {
            Err(Error::Kernel(self.code as u32))
        }
    }
}

/// A reply that was not an error.
#[derive(Debug, PartialEq, Eq)]
pub enum Reply {
    /// The kernel acknowledged the request.
    Ack,
    /// A message, its header consumed, for the caller to decode.
    Message { header: Header, body: Vec<u8> },
}

/// What a received datagram `d` means: an acknowledgement (`None`), a
/// message with its header and body, or an error.
pub open spec fn reply_outcome(d: Seq<u8>) -> Result<Option<(Header, Seq<u8>)>, Error> {
    if d.len() < HEADER_LEN {
        Err(Error::Truncated)
    } else {
        let h = parse_header(d);
        if h.len < HEADER_LEN || h.len > d.len() {
            Err(Error::BadLength)
        } else if h.flags & MULTI != 0 {
            Err(Error::Unsupported)
        } else {
            let body = d.subrange(HEADER_LEN as int, h.len as int);
            if h.ty == MSG_ERROR {
                match parse_error_message(body) {
                    None => Err(Error::Truncated),
                    Some(m) => match m.outcome() {
                        Ok(_) => Ok(None),
                        Err(e) => Err(e),
                    },
                }
            } else if h.ty < MSG_MIN_TYPE {
                Err(Error::Unsupported)
            } else {
                Ok(Some((h, body)))
            }
        }
    }
}

/// An error or acknowledgement reply means success for a zero code and
/// the kernel's error number, the code's magnitude, for any other code.
pub proof fn lemma_error_reply_outcome(d: Seq<u8>)
    requires
        d.len() >= HEADER_LEN + 4,
        HEADER_LEN + 4 <= parse_header(d).len <= d.len(),
        parse_header(d).flags & MULTI == 0,
        parse_header(d).ty == MSG_ERROR,
    ensures
        signed32(u32_at(d, HEADER_LEN as int)) == 0 ==> reply_outcome(d) == Ok::<
            Option<(Header, Seq<u8>)>,
            Error,
        >(None),
        signed32(u32_at(d, HEADER_LEN as int)) != 0 ==> reply_outcome(d) == Err::<
            Option<(Header, Seq<u8>)>,
            Error,
        >(Error::Kernel(magnitude(signed32(u32_at(d, HEADER_LEN as int)) as i32) as u32)),
{
    let body = d.subrange(HEADER_LEN as int, parse_header(d).len as int);
    assert(u32_at(body, 0) == u32_at(d, HEADER_LEN as int));
}

/// The view of a decoded reply.
pub open spec fn reply_view(r: Reply) -> Option<(Header, Seq<u8>)> {
    match r {
        Reply::Ack => None,
        Reply::Message { header, body } => Some((header, body@)),
    }
}

/// Decodes the datagram of `received` bytes at the start of `buf`. A
/// datagram longer than the buffer was cut short and is refused.
pub fn decode_reply(buf: &[u8], received: usize) -> (r: Result<Reply, Error>)
    ensures
        received > buf@.len() ==> r == Err::<Reply, Error>(Error::TooLong),
        received <= buf@.len() ==> match reply_outcome(buf@.subrange(0, received as int)) {
            Ok(v) => r matches Ok(rep) && reply_view(rep) == v,
            Err(e) => r == Err::<Reply, Error>(e),
        },
{
    if received > buf.len() {
        return Err(Error::TooLong);
    }
    let ghost d = buf@.subrange(0, received as int);
    if received < HEADER_LEN {
        return Err(Error::Truncated);
    }
    let header = match Header::unpack(buf) {
        Ok(h) => h,
        Err(e) => {
            return Err(e);
        },
    };
    assert(parse_header(d) == parse_header(buf@));
    if header.len < HEADER_LEN as u32 || header.len as usize > received {
        return Err(Error::BadLength);
    }
    if header.flags & MULTI != 0 {
        return Err(Error::Unsupported);
    }
    let end = header.len as usize;
    let mut body: Vec<u8> = Vec::new();
    let mut i: usize = HEADER_LEN;
    while i < end
        invariant
            HEADER_LEN <= i <= end <= received <= buf@.len(),
            body@ == buf@.subrange(HEADER_LEN as int, i as int),
        decreases end - i,
    {
        body.push(buf[i]);
        i = i + 1;
    }
    assert(body@ == d.subrange(HEADER_LEN as int, end as int));
    if header.ty == MSG_ERROR {
        let m = match ErrorMessage::unpack(body.as_slice()) {
            Ok(m) => m,
            Err(e) => {
                return Err(e);
            },
        };
        match m.result() {
            Ok(()) => Ok(Reply::Ack),
            Err(e) => Err(e),
        }
    } else if header.ty < MSG_MIN_TYPE {
        Err(Error::Unsupported)
    } else {
        Ok(Reply::Message { header, body })
    }
}

/// The family id that a reply to a lookup carries: the reply must be a
/// control message with the "new family" command and a two-byte family-id
/// attribute.
pub open spec fn family_outcome(rep: Option<(Header, Seq<u8>)>) -> Result<u16, Error> {
    match rep {
        None => Err(Error::UnexpectedReply),
        Some((h, body)) => if h.ty != CTRL_FAMILY {
            Err(Error::UnexpectedReply)
        } else if body.len() < 4 {
            Err(Error::Truncated)
        } else if body[0] != CTRL_CMD_NEWFAMILY {
            Err(Error::UnexpectedReply)
        } else {
            match parse_attrs(body.subrange(4, body.len() as int)) {
                None => Err(Error::BadLength),
                Some(attrs) => match first_payload(attrs, CTRL_ATTR_FAMILY_ID) {
                    None => Err(Error::MissingAttribute),
                    Some(p) => if p.len() != 2 {
                        Err(Error::BadLength)
                    } else {
                        Ok(u16_at(p, 0) as u16)
                    },
                },
            }
        },
    }
}

/// Reads the family id out of a reply to a family lookup.
pub fn family_from_reply(reply: &Reply) -> (r: Result<u16, Error>)
    ensures
        r == family_outcome(reply_view(*reply)),
{
    match reply {
        Reply::Ack => Err(Error::UnexpectedReply),
        Reply::Message { header, body } => {
            if header.ty != CTRL_FAMILY {
                return Err(Error::UnexpectedReply);
            }
            if body.len() < 4 {
                return Err(Error::Truncated);
            }
            if body[0] != CTRL_CMD_NEWFAMILY {
                return Err(Error::UnexpectedReply);
            }
            let mut attr_bytes: Vec<u8> = Vec::new();
            let mut i: usize = 4;
            while i < body.len()
                invariant
                    4 <= i <= body@.len(),
                    attr_bytes@ == body@.subrange(4, i as int),
                decreases body@.len() - i,
            {
                attr_bytes.push(body[i]);
                i = i + 1;
            }
            let attrs = match unpack_attrs(attr_bytes.as_slice()) {
                Ok(a) => a,
                Err(e) => {
                    return Err(e);
                },
            };
            match find_attr(&attrs, CTRL_ATTR_FAMILY_ID) {
                None => Err(Error::MissingAttribute),
                Some(k) => {
                    let p = &attrs[k].payload;
                    if p.len() != 2 {
                        Err(Error::BadLength)
                    } else {
                        Ok(read_u16(p.as_slice(), 0))
                    }
                },
            }
        },
    }
}

} // verus!
