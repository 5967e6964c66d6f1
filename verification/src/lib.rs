//! Datagram-socket primitives that expose truncation information.
//!
//! The library is the portable half of a message-based send/receive pair:
//! it converts between a portable socket address and the platform's
//! family-tagged address-storage bytes, and it classifies the outcome of a
//! single datagram syscall (byte count, truncation flag, error-queue flag)
//! into a structured result.  The syscall itself, which needs a raw message
//! descriptor, is left to the unverified caller that owns the socket handle.

use vstd::prelude::*;

pub mod addr;
pub mod codec;
pub mod msg;

verus! {

/// Indicates how a receive buffer was filled.
#[derive(Debug, Clone, Copy, PartialEq, Eq, Structural)]
pub enum BufferContent {
    /// Normal case: a full message was put in the buffer.
    /// The parameter is the size of the message.
    FullMessage(usize),
    /// The message was too large for the buffer, so the end was discarded.
    Partial,
}

/// The failures the two operations can report.
#[derive(Debug, Clone, Copy, PartialEq, Eq, Structural)]
pub enum SockError {
    /// The receive primitive failed outright or signalled the error-queue
    /// condition: no datagram is available right now; retry later.
    NoMessage,
    /// Decoding met an address-family tag outside the supported set.
    /// Carries the unrecognized tag value for diagnostics.
    InvalidAddressFamily(u16),
    /// The send primitive reported a negative result.
    SendFailed,
}

} // verus!
