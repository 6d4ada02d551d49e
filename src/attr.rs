//! Type-length-value attribute records, each padded with zeros to a
//! multiple of four bytes.

use vstd::prelude::*;
use vstd::string::StringSliceAdditionalSpecFns;
use crate::error::Error;
use crate::wire::{le16, u16_at, push_u16, read_u16};

verus! {

/// Length of an attribute's own header: its length and its type.
pub const ATTR_HEADER_LEN: usize = 4;

/// The longest payload whose length still fits the 16-bit length field.
pub const MAX_PAYLOAD: usize = 65531;

/// The zero bytes that bring `len` to a multiple of four.
pub open spec fn pad_len(len: int) -> int {
    (4 - len % 4) % 4
}

/// `len` rounded up to a multiple of four.
pub open spec fn align4(len: int) -> int {
    len + pad_len(len)
}

/// `n` zero bytes.
pub open spec fn zeros(n: int) -> Seq<u8> {
    Seq::new(n as nat, |_i: int| 0u8)
}

/// An attribute on the wire: its length (header and payload, padding not
/// counted), its type, the payload, then the padding.
pub open spec fn attr_wire(ty: u16, payload: Seq<u8>) -> Seq<u8> {
    le16((payload.len() + ATTR_HEADER_LEN) as u16) + le16(ty) + payload + zeros(
        pad_len(payload.len() + ATTR_HEADER_LEN),
    )
}

/// The payload of a string attribute: the string's bytes and a terminating
/// zero.
pub open spec fn str_payload(s: &str) -> Seq<u8> {
    s.spec_bytes().push(0)
}

/// An attribute read from a message.
#[derive(Debug, PartialEq, Eq)]
pub struct Attribute {
    pub ty: u16,
    pub payload: Vec<u8>,
}

impl View for Attribute {
    type V = (u16, Seq<u8>);

    open spec fn view(&self) -> (u16, Seq<u8>) {
        (self.ty, self.payload@)
    }
}

/// The views of a list of attributes.
pub open spec fn attrs_view(v: Seq<Attribute>) -> Seq<(u16, Seq<u8>)> {
    v.map_values(|a: Attribute| a@)
}

/// The attributes that `s` holds, or `None` where a length field is below
/// four, runs past the end, or where fewer than four bytes are left over.
/// The padding of the last attribute may be missing.
pub open spec fn parse_attrs(s: Seq<u8>) -> Option<Seq<(u16, Seq<u8>)>>
    decreases s.len(),
{
    if s.len() == 0 {
        Some(Seq::empty())
    } else if s.len() < ATTR_HEADER_LEN {
        None
    } else {
        let len = u16_at(s, 0);
        if len < ATTR_HEADER_LEN || len > s.len() {
            None
        } else {
            let next = if align4(len) <= s.len() {
                align4(len)
            } else {
                s.len() as int
            };
            match parse_attrs(s.subrange(next, s.len() as int)) {
                Some(rest) => Some(seq![(u16_at(s, 2) as u16, s.subrange(4, len))] + rest),
                None => None,
            }
        }
    }
}

/// The payload of the first attribute of type `ty` in `s`.
pub open spec fn first_payload(s: Seq<(u16, Seq<u8>)>, ty: u16) -> Option<Seq<u8>>
    decreases s.len(),
{
    if s.len() == 0 {
        None
    } else if s[0].0 == ty {
        Some(s[0].1)
    } else {
        first_payload(s.drop_first(), ty)
    }
}

/// Appends one attribute of type `ty` with `payload`.
fn push_attr(buf: &mut Vec<u8>, ty: u16, payload: &[u8])
    requires
        payload@.len() <= MAX_PAYLOAD,
    ensures
        final(buf)@ == old(buf)@ + attr_wire(ty, payload@),
{
    let len = payload.len() + ATTR_HEADER_LEN;
    push_u16(buf, len as u16);
    push_u16(buf, ty);
    let ghost head = buf@;
    let mut i: usize = 0;
    while i < payload.len()
        invariant
            i <= payload@.len(),
            buf@ == head + payload@.subrange(0, i as int),
        decreases payload@.len() - i,
    {
        buf.push(payload[i]);
        i = i + 1;
        assert(buf@ == head + payload@.subrange(0, i as int));
    }
    let pad = (4 - len % 4) % 4;
    let ghost body = buf@;
    let mut j: usize = 0;
    while j < pad
        invariant
            j <= pad,
            pad == pad_len(len as int),
            buf@ == body + zeros(j as int),
        decreases pad - j,
    {
        buf.push(0);
        j = j + 1;
        assert(buf@ == body + zeros(j as int));
    }
    assert(payload@.subrange(0, payload@.len() as int) == payload@);
}

/// Appends an attribute of type `ty` that holds the 16-bit value `v`.
pub fn push_u16_attr(buf: &mut Vec<u8>, ty: u16, v: u16)
    ensures
        final(buf)@ == old(buf)@ + attr_wire(ty, le16(v)),
{
    let mut payload: Vec<u8> = Vec::new();
    push_u16(&mut payload, v);
    assert(payload@ == le16(v));
    push_attr(buf, ty, payload.as_slice());
}

/// Appends an attribute of type `ty` that holds the string `s`, zero
/// terminated. A string too long for the length field is refused and
/// nothing is written.
pub fn push_str_attr(buf: &mut Vec<u8>, ty: u16, s: &str) -> (r: Result<(), Error>)
    ensures
        str_payload(s).len() <= MAX_PAYLOAD ==> r == Ok::<(), Error>(())
            && final(buf)@ == old(buf)@ + attr_wire(ty, str_payload(s)),
        str_payload(s).len() > MAX_PAYLOAD ==> r == Err::<(), Error>(Error::TooLong)
            && final(buf)@ == old(buf)@,
{
    let bytes = s.as_bytes();
    if bytes.len() >= MAX_PAYLOAD {
        return Err(Error::TooLong);
    }
    let mut payload: Vec<u8> = Vec::new();
    let mut i: usize = 0;
    while i < bytes.len()
        invariant
            i <= bytes@.len(),
            payload@ == bytes@.subrange(0, i as int),
        decreases bytes@.len() - i,
    {
        payload.push(bytes[i]);
        i = i + 1;
    }
    payload.push(0);
    assert(bytes@.subrange(0, bytes@.len() as int) == bytes@);
    push_attr(buf, ty, payload.as_slice());
    Ok(())
}

/// `front` put before the list that `rest` holds, if it holds one.
pub open spec fn prepend(
    front: Seq<(u16, Seq<u8>)>,
    rest: Option<Seq<(u16, Seq<u8>)>>,
) -> Option<Seq<(u16, Seq<u8>)>> {
    match rest {
        Some(r) => Some(front + r),
        None => None,
    }
}

/// A copy of `buf[from..to]`.
fn copy_range(buf: &[u8], from: usize, to: usize) -> (r: Vec<u8>)
    requires
        from <= to <= buf@.len(),
    ensures
        r@ == buf@.subrange(from as int, to as int),
{
    let mut r: Vec<u8> = Vec::new();
    let mut i: usize = from;
    while i < to
        invariant
            from <= i <= to <= buf@.len(),
            r@ == buf@.subrange(from as int, i as int),
        decreases to - i,
    {
        r.push(buf[i]);
        i = i + 1;
    }
    r
}

/// Reads the list of attributes that fills `buf`.
pub fn unpack_attrs(buf: &[u8]) -> (r: Result<Vec<Attribute>, Error>)
    ensures
        parse_attrs(buf@) matches Some(s) ==> r matches Ok(v) && attrs_view(v@) == s,
        parse_attrs(buf@) is None ==> r == Err::<Vec<Attribute>, Error>(Error::BadLength),
{
    let n = buf.len();
    let mut out: Vec<Attribute> = Vec::new();
    let mut pos: usize = 0;
    proof {
        assert(buf@.subrange(0, n as int) == buf@);
        assert(attrs_view(out@) == Seq::<(u16, Seq<u8>)>::empty());
        if let Some(t) = parse_attrs(buf@) {
            assert(Seq::<(u16, Seq<u8>)>::empty() + t == t);
        }
    }
    while pos < n
        invariant
            n == buf@.len(),
            pos <= n,
            parse_attrs(buf@) == prepend(attrs_view(out@), parse_attrs(buf@.subrange(pos as int, n as int))),
        decreases n - pos,
    {
        let ghost rest = buf@.subrange(pos as int, n as int);
        if n - pos < ATTR_HEADER_LEN {
            return Err(Error::BadLength);
        }
        let len = read_u16(buf, pos) as usize;
        assert(len == u16_at(rest, 0));
        if len < ATTR_HEADER_LEN || len > n - pos {
            return Err(Error::BadLength);
        }
        let payload = copy_range(buf, pos + 4, pos + len);
        let ty = read_u16(buf, pos + 2);
        assert(ty == u16_at(rest, 2));
        let pad = (4 - len % 4) % 4;
        let next = if pad <= n - pos - len { len + pad } else { n - pos };
        let ghost tail = rest.subrange(next as int, rest.len() as int);
        assert(tail == buf@.subrange((pos + next) as int, n as int));
        assert(payload@ == rest.subrange(4, len as int));
        let ghost before = attrs_view(out@);
        let a = Attribute { ty, payload };
        out.push(a);
        assert(attrs_view(out@) == before + seq![(ty, rest.subrange(4, len as int))]);
        proof {
            if let Some(t) = parse_attrs(tail) {
                assert(before + (seq![(ty, rest.subrange(4, len as int))] + t) == attrs_view(out@)
                    + t);
            }
        }
        pos = pos + next;
    }
    assert(buf@.subrange(n as int, n as int) == Seq::<u8>::empty());
    assert(attrs_view(out@) + Seq::<(u16, Seq<u8>)>::empty() == attrs_view(out@));
    Ok(out)
}

/// The index of the first attribute of type `ty`.
pub fn find_attr(attrs: &Vec<Attribute>, ty: u16) -> (r: Option<usize>)
    ensures
        first_payload(attrs_view(attrs@), ty) is None ==> r is None,
        first_payload(attrs_view(attrs@), ty) matches Some(p) ==> r matches Some(i) && i
            < attrs@.len() && attrs@[i as int].ty == ty && attrs@[i as int].payload@ == p,
{
    let ghost all = attrs_view(attrs@);
    let mut i: usize = 0;
    assert(all.subrange(0, all.len() as int) == all);
    while i < attrs.len()
        invariant
            i <= attrs@.len(),
            all == attrs_view(attrs@),
            first_payload(all, ty) == first_payload(all.subrange(i as int, all.len() as int), ty),
        decreases attrs@.len() - i,
    {
        let ghost s = all.subrange(i as int, all.len() as int);
        assert(s.drop_first() == all.subrange(i + 1, all.len() as int));
        if attrs[i].ty == ty {
            return Some(i);
        }
        i = i + 1;
    }
    None
}

/// What an encoded attribute looks like: its whole size is a multiple of
/// four, and its length field counts the header and the payload but not
/// the padding, which is less than four bytes.
pub proof fn lemma_attr_padding(ty: u16, payload: Seq<u8>)
    requires
        payload.len() <= MAX_PAYLOAD,
    ensures
        attr_wire(ty, payload).len() % 4 == 0,
        u16_at(attr_wire(ty, payload), 0) == payload.len() + ATTR_HEADER_LEN,
        payload.len() + ATTR_HEADER_LEN <= attr_wire(ty, payload).len() < payload.len()
            + ATTR_HEADER_LEN + 4,
{
    let len = (payload.len() + ATTR_HEADER_LEN) as u16;
    crate::wire::lemma_le16_round_trip(len);
    let w = attr_wire(ty, payload);
    assert(w.subrange(0, 2) == le16(len));
}

/// Decoding an encoded attribute gives back its type and payload.
pub proof fn lemma_attr_round_trip(ty: u16, payload: Seq<u8>)
    requires
        payload.len() <= MAX_PAYLOAD,
    ensures
        parse_attrs(attr_wire(ty, payload)) == Some(seq![(ty, payload)]),
{
    let w = attr_wire(ty, payload);
    let len = payload.len() + ATTR_HEADER_LEN;
    lemma_attr_padding(ty, payload);
    crate::wire::lemma_le16_round_trip(ty);
    assert(w.subrange(2, 4) == le16(ty));
    assert(w.subrange(4, len) == payload);
    assert(align4(len) == w.len());
    let rest = w.subrange(w.len() as int, w.len() as int);
    assert(rest.len() == 0);
    assert(parse_attrs(rest) == Some(Seq::<(u16, Seq<u8>)>::empty()));
    assert(seq![(ty, payload)] + Seq::<(u16, Seq<u8>)>::empty() == seq![(ty, payload)]);
}

/// The same for a string attribute: its length field is the string's byte
/// count plus five, the header and the terminating zero.
pub proof fn lemma_str_attr_padding(ty: u16, s: &str)
    requires
        str_payload(s).len() <= MAX_PAYLOAD,
    ensures
        attr_wire(ty, str_payload(s)).len() % 4 == 0,
        u16_at(attr_wire(ty, str_payload(s)), 0) == s.spec_bytes().len() + ATTR_HEADER_LEN + 1,
{
    lemma_attr_padding(ty, str_payload(s));
}

} // verus!
