//! The flags field of a message header. Its low bits mean the same on every
//! message; the meaning of the bits from 0x100 up depends on whether the
//! message is a "get" query or a "new" command, so each of those groups has
//! its own names and the two are never mixed in one message.

use vstd::prelude::*;

verus! {

/// The message is a request.
pub const REQUEST: u16 = 0x001;

/// The message is part of a multi-part reply.
pub const MULTI: u16 = 0x002;

/// The sender asks for an acknowledgement.
pub const ACK: u16 = 0x004;

/// The request is to be echoed back.
pub const ECHO: u16 = 0x008;

/// A dump was interrupted and its contents may be inconsistent.
pub const DUMP_INTR: u16 = 0x010;

/// A request that expects an acknowledgement: what every command sends.
pub const ACK_REQUEST: u16 = REQUEST | ACK;

/// Of a "get" query: return the whole table.
pub const GET_ROOT: u16 = 0x100;

/// Of a "get" query: return every entry that matches.
pub const GET_MATCH: u16 = 0x200;

/// Of a "get" query: a dump of the whole table.
pub const GET_ATOMIC: u16 = GET_ROOT | GET_MATCH;

/// Of a "new" command: replace an existing entry.
pub const NEW_REPLACE: u16 = 0x100;

/// Of a "new" command: fail if the entry exists.
pub const NEW_EXCL: u16 = 0x200;

/// Of a "new" command: create the entry if it does not exist.
pub const NEW_CREATE: u16 = 0x400;

/// Of a "new" command: add to the end of the list.
pub const NEW_APPEND: u16 = 0x800;

} // verus!
