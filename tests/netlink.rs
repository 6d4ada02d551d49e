use ipvs::attr::{push_str_attr, push_u16_attr, unpack_attrs, Attribute, MAX_PAYLOAD};
use ipvs::context::Context;
use ipvs::control::{ControlAttributes, ControlMessage, FlushFrame, Frame};
use ipvs::error::Error;
use ipvs::flags::{ACK, ACK_REQUEST, GET_ATOMIC, MULTI, REQUEST};
use ipvs::header::{Header, MSG_DONE, MSG_ERROR};
use ipvs::reply::{decode_reply, family_from_reply, ErrorMessage, Reply};
use ipvs::socket::Socket;
use ipvs::wire::{push_u16, push_u32, read_u16, read_u32};

fn datagram(ty: u16, flags: u16, body: &[u8]) -> Vec<u8> {
    let mut d = Vec::new();
    Header { len: 16 + body.len() as u32, ty, flags, seq: 7, pid: 99 }.pack(&mut d);
    d.extend_from_slice(body);
    d
}

fn error_body(code: i32) -> Vec<u8> {
    let mut b = code.to_ne_bytes().to_vec();
    Header { len: 24, ty: 16, flags: ACK_REQUEST, seq: 7, pid: 99 }.pack(&mut b);
    b
}

fn new_family_body(attrs: &[u8]) -> Vec<u8> {
    let mut b = vec![1, 2, 0, 0];
    b.extend_from_slice(attrs);
    b
}

#[test]
fn get_family_pack() {
    let message = ControlMessage::GetFamily(ControlAttributes {
        family_name: Some("IPVS"),
        ..Default::default()
    });

    let mut buf = vec![];
    let _ = message.pack(&mut buf);

    assert_eq!(&[3, 1, 0, 0, 9, 0, 2, 0, 73, 80, 86, 83, 0, 0, 0, 0][..], &buf[..]);
}

#[test]
fn get_family_pack_with_id_and_name() {
    let message = ControlMessage::GetFamily(ControlAttributes {
        family_id: Some(0x1234),
        family_name: Some("ab"),
    });
    let mut buf = vec![0xff];
    assert_eq!(message.pack(&mut buf), Ok(20));
    assert_eq!(
        buf,
        vec![0xff, 3, 1, 0, 0, 6, 0, 0, 0, 0x34, 0x12, 0, 0, 7, 0, 2, 0, 97, 98, 0, 0]
    );
}

#[test]
fn get_family_without_attributes_is_refused() {
    let message = ControlMessage::GetFamily(ControlAttributes::default());
    let mut buf = vec![1, 2];
    assert_eq!(message.pack(&mut buf), Err(Error::MissingAttribute));
    assert_eq!(buf, vec![1, 2]);
}

#[test]
fn other_control_messages_are_unsupported() {
    let mut buf = vec![];
    assert_eq!(ControlMessage::DelFamily.pack(&mut buf), Err(Error::Unsupported));
    let new = ControlMessage::NewFamily(ControlAttributes { family_id: Some(3), family_name: None });
    assert_eq!(new.pack(&mut buf), Err(Error::Unsupported));
    assert!(buf.is_empty());
}

#[test]
fn control_message_types_and_family() {
    assert_eq!(ControlMessage::NewFamily(ControlAttributes::default()).to_type(), 1);
    assert_eq!(ControlMessage::DelFamily.to_type(), 2);
    assert_eq!(ControlMessage::GetFamily(ControlAttributes::default()).to_type(), 3);
    assert_eq!(ControlMessage::DelFamily.family(), 16);
}

#[test]
fn flush_pack_is_fixed() {
    let frame = FlushFrame { family: 26 };
    let mut buf = vec![];
    assert_eq!(frame.pack(&mut buf), Ok(4));
    assert_eq!(buf, vec![17, 1, 0, 0]);
    assert_eq!(frame.family(), 26);
}

#[test]
fn flag_values() {
    assert_eq!(ACK_REQUEST, REQUEST | ACK);
    assert_eq!(ACK_REQUEST, 5);
    assert_eq!(GET_ATOMIC, 0x300);
    assert_eq!(MULTI, 2);
}

#[test]
fn wire_integers_are_low_byte_first() {
    let mut buf = vec![];
    push_u16(&mut buf, 0x1234);
    push_u32(&mut buf, 0xa1b2c3d4);
    assert_eq!(buf, vec![0x34, 0x12, 0xd4, 0xc3, 0xb2, 0xa1]);
    assert_eq!(read_u16(&buf, 0), 0x1234);
    assert_eq!(read_u32(&buf, 2), 0xa1b2c3d4);
    assert_eq!(read_u16(&buf, 1), 0xd412);
}

#[test]
fn header_round_trip() {
    let h = Header { len: 0x01020304, ty: 0xbeef, flags: 0x0305, seq: 0xfffffffe, pid: 4242 };
    let mut buf = vec![];
    h.pack(&mut buf);
    assert_eq!(buf.len(), 16);
    assert_eq!(&buf[..4], &[4, 3, 2, 1]);
    assert_eq!(Header::unpack(&buf), Ok(h));
}

#[test]
fn header_unpack_short() {
    assert_eq!(Header::unpack(&[0; 15]), Err(Error::Truncated));
}

#[test]
fn attribute_padding() {
    for (name, total) in [("", 8), ("a", 8), ("abc", 8), ("abcd", 12), ("IPVS", 12), ("abcdefg", 12)] {
        let mut buf = vec![];
        assert_eq!(push_str_attr(&mut buf, 2, name), Ok(()));
        assert_eq!(buf.len(), total);
        assert_eq!(buf.len() % 4, 0);
        assert_eq!(u16::from_ne_bytes([buf[0], buf[1]]) as usize, name.len() + 5);
    }
    let mut buf = vec![];
    push_u16_attr(&mut buf, 1, 0x0102);
    assert_eq!(buf, vec![6, 0, 1, 0, 2, 1, 0, 0]);
}

#[test]
fn string_attribute_too_long() {
    let long = "x".repeat(MAX_PAYLOAD);
    let mut buf = vec![9];
    assert_eq!(push_str_attr(&mut buf, 2, &long), Err(Error::TooLong));
    assert_eq!(buf, vec![9]);
    let fits = "x".repeat(MAX_PAYLOAD - 1);
    assert_eq!(push_str_attr(&mut buf, 2, &fits), Ok(()));
    assert_eq!(buf.len(), 1 + 65536);
}

#[test]
fn attributes_round_trip() {
    let mut buf = vec![];
    push_u16_attr(&mut buf, 1, 26);
    push_str_attr(&mut buf, 2, "IPVS").unwrap();
    let attrs = unpack_attrs(&buf).unwrap();
    assert_eq!(
        attrs,
        vec![
            Attribute { ty: 1, payload: vec![26, 0] },
            Attribute { ty: 2, payload: vec![73, 80, 86, 83, 0] },
        ]
    );
    assert_eq!(unpack_attrs(&[]), Ok(vec![]));
}

#[test]
fn attributes_last_padding_may_be_missing() {
    let attrs = unpack_attrs(&[5, 0, 3, 0, 42]).unwrap();
    assert_eq!(attrs, vec![Attribute { ty: 3, payload: vec![42] }]);
}

#[test]
fn attributes_bad_lengths() {
    assert_eq!(unpack_attrs(&[8, 0, 1, 0, 0, 0, 0, 0, 1]), Err(Error::BadLength));
    assert_eq!(unpack_attrs(&[3, 0, 1, 0]), Err(Error::BadLength));
    assert_eq!(unpack_attrs(&[9, 0, 1, 0, 0, 0, 0, 0]), Err(Error::BadLength));
}

#[test]
fn error_message_decode() {
    let m = ErrorMessage::unpack(&error_body(-13)).unwrap();
    assert_eq!(m.code, -13);
    assert_eq!(m.header, Some(Header { len: 24, ty: 16, flags: ACK_REQUEST, seq: 7, pid: 99 }));
    assert_eq!(m.result(), Err(Error::Kernel(13)));
    let ok = ErrorMessage::unpack(&0i32.to_ne_bytes()).unwrap();
    assert_eq!(ok.header, None);
    assert_eq!(ok.result(), Ok(()));
    assert_eq!(ErrorMessage::unpack(&[0, 0, 0]), Err(Error::Truncated));
    let min = ErrorMessage { code: i32::MIN, header: None };
    assert_eq!(min.result(), Err(Error::Kernel(0x8000_0000)));
}

#[test]
fn decode_error_and_ack_replies() {
    let d = datagram(MSG_ERROR, 0, &error_body(-13));
    assert_eq!(decode_reply(&d, d.len()), Err(Error::Kernel(13)));
    let d = datagram(MSG_ERROR, 0, &error_body(0));
    assert_eq!(decode_reply(&d, d.len()), Ok(Reply::Ack));
}

#[test]
fn decode_reply_errors() {
    let d = datagram(30, 0, &[1, 2, 3, 4]);
    assert_eq!(decode_reply(&d, d.len() + 1), Err(Error::TooLong));
    assert_eq!(decode_reply(&d, 10), Err(Error::Truncated));
    let mut bad = d.clone();
    bad[0] = 40;
    assert_eq!(decode_reply(&bad, bad.len()), Err(Error::BadLength));
    let d = datagram(30, MULTI, &[1, 2, 3, 4]);
    assert_eq!(decode_reply(&d, d.len()), Err(Error::Unsupported));
    let d = datagram(MSG_DONE, 0, &[0, 0, 0, 0]);
    assert_eq!(decode_reply(&d, d.len()), Err(Error::Unsupported));
}

#[test]
fn decode_message_reply() {
    let mut d = datagram(30, 0, &[1, 2, 3, 4]);
    d.extend_from_slice(&[0; 8]);
    match decode_reply(&d, 20).unwrap() {
        Reply::Message { header, body } => {
            assert_eq!(header.ty, 30);
            assert_eq!(header.seq, 7);
            assert_eq!(body, vec![1, 2, 3, 4]);
        }
        Reply::Ack => panic!("expected a message"),
    }
}

#[test]
fn request_framing_and_sequence() {
    let mut sock = Socket::new(0x0a0b0c0d);
    assert_eq!(sock.seq(), 0);
    let d = sock.request(&FlushFrame { family: 26 }).unwrap();
    assert_eq!(
        d,
        vec![20, 0, 0, 0, 26, 0, 5, 0, 0, 0, 0, 0, 0x0d, 0x0c, 0x0b, 0x0a, 17, 1, 0, 0]
    );
    assert_eq!(sock.seq(), 1);
    let d = sock.family_request("IPVS").unwrap();
    assert_eq!(d.len(), 32);
    assert_eq!(&d[..12], &[32, 0, 0, 0, 16, 0, 5, 0, 1, 0, 0, 0]);
    assert_eq!(&d[16..], &[3, 1, 0, 0, 9, 0, 2, 0, 73, 80, 86, 83, 0, 0, 0, 0]);
    for _ in 0..5 {
        sock.request(&FlushFrame { family: 26 }).unwrap();
    }
    assert_eq!(sock.seq(), 7);
    assert_eq!(sock.pid(), 0x0a0b0c0d);
}

#[test]
fn failed_request_keeps_sequence() {
    let mut sock = Socket::new(1);
    assert_eq!(sock.request(&ControlMessage::DelFamily), Err(Error::Unsupported));
    assert_eq!(sock.seq(), 0);
    let empty = ControlMessage::GetFamily(ControlAttributes::default());
    assert_eq!(sock.request(&empty), Err(Error::MissingAttribute));
    let long = "x".repeat(MAX_PAYLOAD);
    assert_eq!(sock.family_request(&long), Err(Error::TooLong));
    assert_eq!(sock.seq(), 0);
}

#[test]
fn resolve_family_from_reply() {
    let sock = Socket::new(1);
    let d = datagram(16, 0, &new_family_body(&[6, 0, 0, 0, 42, 1, 0, 0]));
    assert_eq!(sock.resolve_family(&d, d.len()), Ok(0x012a));
    let mut attrs = vec![];
    push_str_attr(&mut attrs, 2, "IPVS").unwrap();
    push_u16_attr(&mut attrs, 0, 26);
    let d = datagram(16, 0, &new_family_body(&attrs));
    assert_eq!(sock.resolve_family(&d, d.len()), Ok(26));
}

#[test]
fn resolve_family_propagates_error_reply() {
    let sock = Socket::new(1);
    let d = datagram(MSG_ERROR, 0, &error_body(-13));
    assert_eq!(sock.resolve_family(&d, d.len()), Err(Error::Kernel(13)));
    let d = datagram(MSG_ERROR, 0, &error_body(-2));
    assert_eq!(sock.resolve_family(&d, d.len()), Err(Error::Kernel(2)));
}

#[test]
fn resolve_family_failures() {
    let sock = Socket::new(1);
    let d = datagram(MSG_ERROR, 0, &error_body(0));
    assert_eq!(sock.resolve_family(&d, d.len()), Err(Error::UnexpectedReply));
    let d = datagram(17, 0, &new_family_body(&[6, 0, 0, 0, 42, 0, 0, 0]));
    assert_eq!(sock.resolve_family(&d, d.len()), Err(Error::UnexpectedReply));
    let mut body = new_family_body(&[6, 0, 0, 0, 42, 0, 0, 0]);
    body[0] = 3;
    let d = datagram(16, 0, &body);
    assert_eq!(sock.resolve_family(&d, d.len()), Err(Error::UnexpectedReply));
    let d = datagram(16, 0, &new_family_body(&[6, 0, 2, 0, 42, 0, 0, 0]));
    assert_eq!(sock.resolve_family(&d, d.len()), Err(Error::MissingAttribute));
    let d = datagram(16, 0, &new_family_body(&[5, 0, 0, 0, 42, 0, 0, 0]));
    assert_eq!(sock.resolve_family(&d, d.len()), Err(Error::BadLength));
    let d = datagram(16, 0, &[1, 2]);
    assert_eq!(sock.resolve_family(&d, d.len()), Err(Error::Truncated));
}

#[test]
fn family_from_ack_is_unexpected() {
    assert_eq!(family_from_reply(&Reply::Ack), Err(Error::UnexpectedReply));
}

#[test]
fn context_records_families() {
    let mut ctx = Context::new();
    assert_eq!(ctx.family("IPVS"), None);
    let d = datagram(16, 0, &new_family_body(&[6, 0, 0, 0, 26, 0, 0, 0]));
    assert_eq!(ctx.add("IPVS", &d, d.len()), Ok(26));
    assert_eq!(ctx.family("IPVS"), Some(26));
    assert_eq!(ctx.family("TASKSTATS"), None);
    let d = datagram(MSG_ERROR, 0, &error_body(-1));
    assert_eq!(ctx.add("TASKSTATS", &d, d.len()), Err(Error::Kernel(1)));
    assert_eq!(ctx.family("TASKSTATS"), None);
    let d = datagram(16, 0, &new_family_body(&[6, 0, 0, 0, 27, 0, 0, 0]));
    assert_eq!(ctx.add("IPVS", &d, d.len()), Ok(27));
    assert_eq!(ctx.family("IPVS"), Some(27));
}
