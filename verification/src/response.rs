//! What a transaction gives back: the status and the decoded payload, or the
//! error of the bus.

use crate::frame::{lemma_frame_layout, write_frame};
use crate::payload::{
    bytes_of_signed32, bytes_of_unsigned32, lemma_bytes_round_trip, lemma_signed32_round_trip,
    lemma_unsigned32_round_trip, signed32_of, unsigned32_of,
};
use crate::registers::Registers;
use crate::status::TmcStatus;
use vstd::prelude::*;

verus! {

/// How the payload of the response is handed to the caller.
#[derive(Copy, Clone, PartialEq, Eq, Debug, Structural)]
pub enum Decode {
    /// As the four bytes that came.
    Raw,
    /// As a signed 32-bit value.
    Signed,
    /// As an unsigned 32-bit value.
    Unsigned,
}

/// The payload of a response, decoded as the accessor asked.
#[derive(Copy, Clone, PartialEq, Eq, Debug)]
pub enum Reply {
    /// The four bytes that followed the status byte.
    Raw([u8; 4]),
    /// Those bytes as a signed value.
    Signed(i32),
    /// Those bytes as an unsigned value.
    Unsigned(u32),
}

/// What a successful transaction gives.
#[derive(Copy, Clone, PartialEq, Eq, Debug)]
pub struct Response {
    /// The state of the chip when it latched the command byte.
    pub status: TmcStatus,
    /// The payload. After a write the chip is free to send anything here.
    pub reply: Reply,
}

/// The four payload bytes of a response, presented as `decode` says.
pub open spec fn reply_of(decode: Decode, payload: Seq<u8>) -> Reply {
    match decode {
        Decode::Raw => Reply::Raw([payload[0], payload[1], payload[2], payload[3]]),
        Decode::Signed => Reply::Signed(signed32_of(payload) as i32),
        Decode::Unsigned => Reply::Unsigned(unsigned32_of(payload) as u32),
    }
}

/// What a transaction returns for each outcome of the exchange: the first
/// byte received as status and the other four decoded, or the error of the
/// bus as it came.
pub open spec fn response_to<E>(decode: Decode, outcome: Result<[u8; 5], E>) -> Result<
    Response,
    E,
> {
    match outcome {
        Ok(received) => Ok(
            Response {
                status: TmcStatus(received[0]),
                reply: reply_of(decode, received@.subrange(1, 5)),
            },
        ),
        Err(error) => Err(error),
    }
}

/// Decoding loses nothing of the payload: a reply asked for as it comes
/// holds the four bytes unchanged, and one asked for as a number holds the
/// number that is written as exactly those bytes.
pub proof fn lemma_reply_keeps_payload(payload: Seq<u8>)
    requires
        payload.len() == 4,
    ensures
        reply_of(Decode::Raw, payload) matches Reply::Raw(bytes) && bytes@ == payload,
        reply_of(Decode::Signed, payload) matches Reply::Signed(value) && bytes_of_signed32(value)
            == payload,
        reply_of(Decode::Unsigned, payload) matches Reply::Unsigned(value) && bytes_of_unsigned32(
            value,
        ) == payload,
{
    lemma_bytes_round_trip(payload);
}

/// A value written comes back as written: the payload that a write puts in
/// its frame, received again as the payload of a response, is decoded to the
/// value that was written.
pub proof fn lemma_written_value_reads_back(register: Registers, signed: i32, unsigned: u32)
    ensures
        reply_of(Decode::Signed, write_frame(register, bytes_of_signed32(signed)).subrange(1, 5))
            == Reply::Signed(signed),
        reply_of(
            Decode::Unsigned,
            write_frame(register, bytes_of_unsigned32(unsigned)).subrange(1, 5),
        ) == Reply::Unsigned(unsigned),
{
    lemma_signed32_round_trip(signed);
    lemma_unsigned32_round_trip(unsigned);
    lemma_frame_layout(register, bytes_of_signed32(signed));
    lemma_frame_layout(register, bytes_of_unsigned32(unsigned));
}

/// Every outcome of the exchange has its result: bytes received give a
/// response whose status is the first of them, and an error of the bus gives
/// that error.
pub proof fn lemma_response_follows_outcome<E>(decode: Decode, outcome: Result<[u8; 5], E>)
    ensures
        outcome is Ok <==> response_to(decode, outcome) is Ok,
        outcome matches Ok(received) ==> response_to(decode, outcome)->Ok_0.status == TmcStatus(
            received[0],
        ),
        outcome matches Err(error) ==> response_to(decode, outcome) == Err::<Response, E>(error),
{
}

} // verus!
