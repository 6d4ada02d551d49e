//! Frames: message bodies that know the family they are addressed to, among
//! them the control messages that create, delete and look up a family.

use vstd::prelude::*;
use vstd::string::StringSliceAdditionalSpecFns;
use crate::attr::{attr_wire, push_str_attr, push_u16_attr, str_payload, MAX_PAYLOAD};
use crate::error::Error;
use crate::wire::le16;

verus! {

/// The family of the control messages.
pub const CTRL_FAMILY: u16 = 16;

/// Version of the control protocol.
pub const CTRL_VERSION: u8 = 1;

/// Command of a reply that describes a family.
pub const CTRL_CMD_NEWFAMILY: u8 = 1;

/// Command that deletes a family.
pub const CTRL_CMD_DELFAMILY: u8 = 2;

/// Command that looks up a family.
pub const CTRL_CMD_GETFAMILY: u8 = 3;

/// Attribute type of a family's numeric id.
pub const CTRL_ATTR_FAMILY_ID: u16 = 0;

/// Attribute type of a family's name.
pub const CTRL_ATTR_FAMILY_NAME: u16 = 2;

/// Command of the load balancer that removes every service.
pub const IPVS_CMD_FLUSH: u8 = 17;

/// Version of the load balancer's protocol.
pub const IPVS_VERSION: u8 = 1;

/// A message body together with the family it is addressed to.
pub trait Frame {
    /// The family the frame is addressed to.
    spec fn spec_family(&self) -> u16;

    /// The bytes of the body, or the error that encoding it meets.
    spec fn packed(&self) -> Result<Seq<u8>, Error>;

    fn family(&self) -> (r: u16)
        ensures
            r == self.spec_family(),
    ;

    /// Appends the body to `buf` and returns its length; on an error `buf`
    /// is left as it was.
    fn pack(&self, buf: &mut Vec<u8>) -> (r: Result<usize, Error>)
        ensures
            match self.packed() {
                Ok(b) => r == Ok::<usize, Error>(b.len() as usize) && final(buf)@ == old(buf)@ + b,
                Err(e) => r == Err::<usize, Error>(e) && final(buf)@ == old(buf)@,
            },
    ;
}

/// The attributes a control message may carry, at most one of each.
#[derive(Debug, Default)]
pub struct ControlAttributes<'a> {
    pub family_id: Option<u16>,
    pub family_name: Option<&'a str>,
}

/// A control message.
#[derive(Debug)]
pub enum ControlMessage<'a> {
    /// Returned in response to a `GetFamily` request.
    NewFamily(ControlAttributes<'a>),
    DelFamily,
    GetFamily(ControlAttributes<'a>),
}

/// The generic header of a control message with command `cmd`.
pub open spec fn ctrl_header(cmd: u8) -> Seq<u8> {
    seq![cmd, CTRL_VERSION, 0u8, 0u8]
}

/// Whether a name is too long for its attribute.
pub open spec fn name_too_long(name: &str) -> bool {
    str_payload(name).len() > MAX_PAYLOAD
}

/// The attribute list of a request with `attrs`.
pub open spec fn ctrl_attrs_wire(attrs: ControlAttributes) -> Seq<u8> {
    (match attrs.family_id {
        Some(id) => attr_wire(CTRL_ATTR_FAMILY_ID, le16(id)),
        None => Seq::empty(),
    }) + (match attrs.family_name {
        Some(name) => attr_wire(CTRL_ATTR_FAMILY_NAME, str_payload(name)),
        None => Seq::empty(),
    })
}

/// Why a control message cannot be encoded, if it cannot.
pub open spec fn ctrl_pack_error(m: ControlMessage) -> Option<Error> {
    match m {
        ControlMessage::GetFamily(a) => if a.family_id is None && a.family_name is None {
            Some(Error::MissingAttribute)
        } else if a.family_name matches Some(name) && name_too_long(name) {
            Some(Error::TooLong)
        } else {
            None
        },
        _ => Some(Error::Unsupported),
    }
}

impl<'a> ControlMessage<'a> {
    /// The command number of the message's kind.
    pub open spec fn spec_type(&self) -> u8 {
        match *self {
            ControlMessage::NewFamily(..) => CTRL_CMD_NEWFAMILY,
            ControlMessage::DelFamily => CTRL_CMD_DELFAMILY,
            ControlMessage::GetFamily(..) => CTRL_CMD_GETFAMILY,
        }
    }

    pub fn to_type(&self) -> (r: u8)
        ensures
            r == self.spec_type(),
    {
        match *self {
            ControlMessage::NewFamily(..) => CTRL_CMD_NEWFAMILY,
            ControlMessage::DelFamily => CTRL_CMD_DELFAMILY,
            ControlMessage::GetFamily(..) => CTRL_CMD_GETFAMILY,
        }
    }
}

impl<'a> Frame for ControlMessage<'a> {
    open spec fn spec_family(&self) -> u16 {
        CTRL_FAMILY
    }

    /// Only a lookup is sent by this client: it carries the generic header
    /// and then the id and the name, each where present.
    open spec fn packed(&self) -> Result<Seq<u8>, Error> {
        match ctrl_pack_error(*self) {
            Some(e) => Err(e),
            None => match *self {
                ControlMessage::GetFamily(a) => Ok(
                    ctrl_header(CTRL_CMD_GETFAMILY) + ctrl_attrs_wire(a),
                ),
                _ => Err(Error::Unsupported),
            },
        }
    }

    fn family(&self) -> (r: u16) {
        CTRL_FAMILY
    }

    fn pack(&self, buf: &mut Vec<u8>) -> (r: Result<usize, Error>) {
        let attrs = match self {
            ControlMessage::GetFamily(a) => a,
            _ => {
                return Err(Error::Unsupported);
            },
        };
        if attrs.family_id.is_none() && attrs.family_name.is_none() {
            return Err(Error::MissingAttribute);
        }
        let mut body: Vec<u8> = Vec::new();
        body.push(self.to_type());
        body.push(CTRL_VERSION);
        body.push(0);
        body.push(0);
        if let Some(id) = attrs.family_id {
            push_u16_attr(&mut body, CTRL_ATTR_FAMILY_ID, id);
        }
        if let Some(name) = attrs.family_name {
            let written = push_str_attr(&mut body, CTRL_ATTR_FAMILY_NAME, name);
            if written.is_err() {
                return Err(Error::TooLong);
            }
        }
        proof {
            assert(body@ == ctrl_header(CTRL_CMD_GETFAMILY) + ctrl_attrs_wire(*attrs));
        }
        let n = body.len();
        buf.append(&mut body);
        Ok(n)
    }
}

/// The command that removes every service of the load balancer, addressed
/// to the family that the load balancer was given by the kernel.
#[derive(Debug, Clone, Copy, PartialEq, Eq)]
pub struct FlushFrame {
    pub family: u16,
}

impl Frame for FlushFrame {
    open spec fn spec_family(&self) -> u16 {
        self.family
    }

    /// Always the same four bytes: the command, the version and two zeros.
    open spec fn packed(&self) -> Result<Seq<u8>, Error> {
        Ok(seq![IPVS_CMD_FLUSH, IPVS_VERSION, 0u8, 0u8])
    }

    fn family(&self) -> (r: u16) {
        self.family
    }

    fn pack(&self, buf: &mut Vec<u8>) -> (r: Result<usize, Error>) {
        buf.push(IPVS_CMD_FLUSH);
        buf.push(IPVS_VERSION);
        buf.push(0);
        buf.push(0);
        Ok(4)
    }
}

} // verus!
