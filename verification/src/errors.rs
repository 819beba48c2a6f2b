//! The error sum surfaced by the transport core.

use vstd::prelude::*;

verus! {

/// Why a byte stream failed to yield a well-formed RPC frame.
#[derive(Clone, Copy, Debug, PartialEq, Eq, Structural)]
pub enum FramingFault {
    /// The declared frame length lies outside `12 ..= 2^24`.
    LengthOutOfRange,
    /// Fewer bytes than the declared length were supplied.
    Truncated,
    /// The trailing checksum does not match the frame contents.
    CrcMismatch,
}

/// Why the two-phase handshake with a middle proxy was aborted.
#[derive(Clone, Copy, Debug, PartialEq, Eq, Structural)]
pub enum HandshakeFault {
    /// The peer answered under an unexpected sequence number.
    WrongSeq,
    /// The peer's payload opens with an unexpected opcode.
    WrongOpcode,
    /// The peer proposed a crypto schema other than AES.
    WrongSchema,
    /// The peer's payload is too short for its opcode.
    ShortPayload,
    /// The peer's bytes do not form a well-formed frame.
    BadFrame(FramingFault),
    /// The peer rejected the handshake; the code travels in the body.
    Rejected(i32),
}

/// The single error sum of the transport core.
#[derive(Clone, Copy, Debug, PartialEq, Eq, Structural)]
pub enum MeError {
    /// A socket or file operation failed in the caller's shell.
    Io,
    /// A connect or handshake deadline passed in the caller's shell.
    Timeout,
    /// The handshake was aborted.
    Handshake(HandshakeFault),
    /// A cipher operation failed.
    Crypto,
    /// A byte stream failed to parse as RPC frames.
    Framing(FramingFault),
    /// No live writer is available.
    PoolEmpty,
    /// The proxy secret could not be obtained or is unusable.
    ProxySecret,
}

} // verus!
