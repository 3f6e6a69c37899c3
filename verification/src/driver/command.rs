//! What it is to be a command, and to be a command with a reply.

use crate::driver::link::BUF_SIZE;
use crate::error::QlError;
use vstd::prelude::*;

verus! {

/// A value that stands for one outbound operation. It goes out as the
/// bytes of exactly one write.
pub trait Command {
    /// The exact bytes of the write.
    spec fn wire(&self) -> Seq<u8>;

    /// Serializes the command for its one write.
    fn to_bytes(&self) -> (bytes: Vec<u8>)
        ensures
            bytes@ == self.wire(),
    ;
}

/// A command that the printer answers with a frame of fixed size. The
/// caller writes the command, reads `reply_length` bytes from the same
/// link before any other operation on it, and hands them to
/// `read_response`.
pub trait CommandResponse: Command {
    /// What the reply decodes to.
    type Response;

    /// Size of the reply frame in bytes.
    spec fn reply_len(&self) -> nat;

    /// Whether `reply` has the size and the leading bytes of a reply to
    /// this command. A frame without them is a framing fault of the
    /// transport, not an answer of the printer.
    spec fn framed(&self, reply: Seq<u8>) -> bool;

    /// What a framed reply decodes to.
    spec fn response(&self, reply: Seq<u8>) -> Result<Self::Response, QlError>;

    /// Size of the reply frame in bytes. It is one that the link reads.
    fn reply_length(&self) -> (n: usize)
        ensures
            n == self.reply_len(),
            n < BUF_SIZE,
    ;

    /// Tests the frame before decoding.
    fn is_framed(&self, reply: &[u8]) -> (b: bool)
        ensures
            b == self.framed(reply@),
    ;

    /// Decodes a framed reply.
    fn read_response(&self, reply: &[u8]) -> (r: Result<Self::Response, QlError>)
        requires
            self.framed(reply@),
        ensures
            r == self.response(reply@),
    ;
}

} // verus!
