//! The length prefix of a message on a stream: a sender announces the
//! payload's length as a `u32` before the payload, and a receiver refuses a
//! length above [`MAX_MESSAGE_SIZE`].

use vstd::prelude::*;

verus! {

/// The largest payload, in bytes, that is sent or accepted.
pub const MAX_MESSAGE_SIZE: u64 = 1_000_000_000;

/// Why a payload is not sent or not accepted.
#[derive(Debug, Clone, Copy, PartialEq, Eq, Structural)]
pub enum FrameError {
    /// The payload is longer than [`MAX_MESSAGE_SIZE`].
    MessageTooLarge,
}

/// The prefix announcing a payload of `payload_len` bytes, or the refusal
/// of a payload that is too large.
pub open spec fn spec_outgoing_length(payload_len: usize) -> Result<u32, FrameError> {
    if payload_len > MAX_MESSAGE_SIZE {
        Err(FrameError::MessageTooLarge)
    } else {
        Ok(payload_len as u32)
    }
}

/// The payload length that a received prefix announces, or the refusal of
/// a length that is too large.
pub open spec fn spec_incoming_length(prefix: u32) -> Result<usize, FrameError> {
    if prefix > MAX_MESSAGE_SIZE {
        Err(FrameError::MessageTooLarge)
    } else {
        Ok(prefix as usize)
    }
}

/// The length prefix to send before a payload of `payload_len` bytes.
pub fn outgoing_length(payload_len: usize) -> (prefix: Result<u32, FrameError>)
    ensures
        prefix == spec_outgoing_length(payload_len),
{
    let len = payload_len as u64;
    if len > MAX_MESSAGE_SIZE {
        return Err(FrameError::MessageTooLarge);
    }
    Ok(len as u32)
}

/// The number of payload bytes to read after the prefix `prefix`.
pub fn incoming_length(prefix: u32) -> (len: Result<usize, FrameError>)
    ensures
        len == spec_incoming_length(prefix),
{
    let len = prefix as u64;
    if len > MAX_MESSAGE_SIZE {
        return Err(FrameError::MessageTooLarge);
    }
    Ok(prefix as usize)
}

/// A payload that a sender sends is accepted by the receiver with the same
/// length; one that a sender refuses would be refused by the receiver too.
pub proof fn lemma_length_roundtrip(payload_len: usize)
    ensures
        spec_outgoing_length(payload_len) matches Ok(prefix) ==> spec_incoming_length(prefix) == Ok::<
            usize,
            FrameError,
        >(payload_len),
        spec_outgoing_length(payload_len) is Err <==> payload_len > MAX_MESSAGE_SIZE,
{
}

} // verus!
