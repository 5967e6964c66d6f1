//! The message transceiver's outcome classification.
//!
//! The caller owns the socket handle and makes the one kernel call per
//! operation; these functions turn the call's raw outcome (byte count,
//! output flags, the address storage the kernel wrote) into the structured
//! result the operations report.

use vstd::prelude::*;

use crate::addr::{AddrModel, SockAddr};
use crate::codec::{decode_spec, len_covers_family, sockaddr_to_addr, SockAddrStorage};
use crate::{BufferContent, SockError};

verus! {

/// Platform ABI flag bit: the kernel truncated the datagram to the buffer.
pub const MSG_TRUNC: i32 = 0x0020;

/// Platform ABI flag bit: the notification came from the error queue, so no
/// actual datagram is available.
pub const MSG_ERRQUEUE: i32 = 0x2000;

/// Whether the flag bit is set in the descriptor's output flags.
pub open spec fn has_flag(flags: i32, bit: i32) -> bool {
    flags & bit != 0
}

/// What one receive call reports, given the primitive's return value, the
/// descriptor's output flags and the address storage the kernel wrote.
/// Checked in this order: a failed primitive or the error-queue flag is the
/// recoverable no-message condition; then the truncation flag makes the
/// outcome `Partial` (which never reports a size); otherwise the outcome is
/// the full message with the primitive's byte count.  Either way the sender's
/// address is decoded from the storage, and a decoding failure propagates.
pub open spec fn recv_outcome_spec(ret: isize, msg_flags: i32, s: Seq<u8>) -> Result<
    (BufferContent, AddrModel),
    SockError,
> {
    if ret < 0 || has_flag(msg_flags, MSG_ERRQUEUE) {
        Err(SockError::NoMessage)
    } else {
        match decode_spec(s) {
            Ok(a) => Ok(
                (
                    if has_flag(msg_flags, MSG_TRUNC) {
                        BufferContent::Partial
                    } else {
                        BufferContent::FullMessage(ret as usize)
                    },
                    a,
                ),
            ),
            Err(e) => Err(e),
        }
    }
}

/// The model of a receive result.
pub open spec fn recv_result_model(r: Result<(BufferContent, SockAddr), SockError>) -> Result<
    (BufferContent, AddrModel),
    SockError,
> {
    match r {
        Ok((content, a)) => Ok((content, a@)),
        Err(e) => Err(e),
    }
}

/// Interpret the outcome of one kernel receive call.
///
/// `ret` is the primitive's return value, `msg_flags` the descriptor's
/// output flags, `storage` the address slot the kernel wrote into (it must
/// have been zero-initialized before the call), and `addr_len` the address
/// byte length reported for it.  Exactly one datagram was consumed by the
/// call this classifies, truncated or not; truncation is a normal outcome,
/// not an error.
pub fn recv_outcome(ret: isize, msg_flags: i32, storage: &SockAddrStorage, addr_len: usize) -> (r:
    Result<(BufferContent, SockAddr), SockError>)
    requires
        storage.wf(),
        ret >= 0 && !has_flag(msg_flags, MSG_ERRQUEUE) ==> len_covers_family(storage@, addr_len),
    ensures
        recv_result_model(r) == recv_outcome_spec(ret, msg_flags, storage@),
{
    if ret < 0 || (msg_flags & MSG_ERRQUEUE) != 0 {
        Err(SockError::NoMessage)
    } else {
        match sockaddr_to_addr(storage, addr_len) {
            Ok(a) => {
                if (msg_flags & MSG_TRUNC) != 0 {
                    Ok((BufferContent::Partial, a))
                } else {
                    Ok((BufferContent::FullMessage(ret as usize), a))
                }
            },
            Err(e) => Err(e),
        }
    }
}

/// Law: a failed primitive or an error-queue notification always classifies
/// as the recoverable no-message condition, whatever the storage holds and
/// whatever other flag bits are set; it is never reported as data.
pub proof fn lemma_no_message_on_failure(ret: isize, msg_flags: i32, s: Seq<u8>)
    requires
        ret < 0 || has_flag(msg_flags, MSG_ERRQUEUE),
    ensures
        recv_outcome_spec(ret, msg_flags, s) == Err::<(BufferContent, AddrModel), SockError>(
            SockError::NoMessage,
        ),
{
}

/// Law: a datagram received with the truncation flag set classifies as
/// `Partial`, which carries no size, beside the sender's decoded address.
pub proof fn lemma_truncation_is_partial(ret: isize, msg_flags: i32, s: Seq<u8>)
    requires
        ret >= 0,
        !has_flag(msg_flags, MSG_ERRQUEUE),
        has_flag(msg_flags, MSG_TRUNC),
        decode_spec(s) is Ok,
    ensures
        recv_outcome_spec(ret, msg_flags, s) == Ok::<(BufferContent, AddrModel), SockError>(
            (BufferContent::Partial, decode_spec(s)->Ok_0),
        ),
{
}

/// Law: a datagram received without the truncation flag classifies as the
/// full message with exactly the primitive's byte count, beside the sender's
/// decoded address.
pub proof fn lemma_full_message_reports_count(ret: isize, msg_flags: i32, s: Seq<u8>)
    requires
        ret >= 0,
        !has_flag(msg_flags, MSG_ERRQUEUE),
        !has_flag(msg_flags, MSG_TRUNC),
        decode_spec(s) is Ok,
    ensures
        recv_outcome_spec(ret, msg_flags, s) == Ok::<(BufferContent, AddrModel), SockError>(
            (BufferContent::FullMessage(ret as usize), decode_spec(s)->Ok_0),
        ),
{
}

/// Interpret the result of one kernel send call: a negative return value is
/// the generic send failure; otherwise the nonnegative byte count the kernel
/// accepted is returned unchanged.
pub fn send_outcome(ret: isize) -> (r: Result<usize, SockError>)
    ensures
        ret < 0 ==> r == Err::<usize, SockError>(SockError::SendFailed),
        ret >= 0 ==> r == Ok::<usize, SockError>(ret as usize),
{
    if ret < 0 {
        Err(SockError::SendFailed)
    } else {
        Ok(ret as usize)
    }
}

} // verus!
