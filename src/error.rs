use vstd::prelude::*;

verus! {

/// What can go wrong while talking to the kernel.
#[derive(Debug, Clone, Copy, PartialEq, Eq, Structural)]
pub enum Error {
    /// A system call on the channel (socket, bind, send, recv) failed with
    /// this operating-system error number.
    Os(i32),
    /// The kernel answered with an error reply; this is the magnitude of its
    /// code, an operating-system error number.
    Kernel(u32),
    /// The bytes end before the field being read.
    Truncated,
    /// A length field disagrees with the bytes around it.
    BadLength,
    /// The reply is not of the kind the request expects.
    UnexpectedReply,
    /// The message lacks an attribute that it needs.
    MissingAttribute,
    /// The message kind is one this client does not encode or decode
    /// (multi-part replies among them).
    Unsupported,
    /// A value is too long for its length field, or a reply for the buffer.
    TooLong,
}

} // verus!
