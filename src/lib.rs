//! Client side of the generic netlink control protocol, as used to drive the
//! kernel's IP virtual server: message framing, attribute lists, the family
//! lookup exchange and the interpretation of acknowledgements.
//!
//! The functions here compute on bytes; opening the channel and moving
//! datagrams is left to the caller.

pub mod wire;
pub mod error;
pub mod flags;
pub mod header;
pub mod attr;
pub mod control;
pub mod reply;
pub mod socket;
pub mod context;
