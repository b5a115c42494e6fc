//! The transmit frame: one command byte and four payload bytes.

use crate::registers::{lemma_seven_bits, Registers};
use vstd::prelude::*;

verus! {

/// Set in the first byte of a frame that writes; clear in one that reads.
pub const WRITE_MASK: u8 = 0x80;

/// The frame that reads `register`: its address, then zeros.
pub open spec fn read_frame(register: Registers) -> Seq<u8> {
    seq![register.spec_addr(), 0u8, 0u8, 0u8, 0u8]
}

/// The frame that writes `payload` to `register`: its address with the write
/// flag, then the payload as it is.
pub open spec fn write_frame(register: Registers, payload: Seq<u8>) -> Seq<u8> {
    seq![register.spec_addr() | WRITE_MASK, payload[0], payload[1], payload[2], payload[3]]
}

/// Builds the frame that reads `register`.
pub fn read_request(register: Registers) -> (frame: [u8; 5])
    ensures
        frame@ == read_frame(register),
{
    let mut frame = [0u8; 5];
    frame[0] = register.addr();
    frame
}

/// Builds the frame that writes `data` to `register`.
pub fn write_request(register: Registers, data: [u8; 4]) -> (frame: [u8; 5])
    ensures
        frame@ == write_frame(register, data@),
{
    let mut frame = [0u8; 5];
    frame[0] = register.addr() | WRITE_MASK;
    frame[1] = data[0];
    frame[2] = data[1];
    frame[3] = data[2];
    frame[4] = data[3];
    frame
}

/// The command byte says whether the frame reads or writes, and which
/// register: a read carries the bare address, a write the address raised by
/// the write flag, and taking the flag away gives the address back. So no
/// read is taken for a write, and no register for another.
pub proof fn lemma_command_byte(register: Registers, payload: Seq<u8>)
    ensures
        read_frame(register)[0] == register.spec_addr(),
        read_frame(register)[0] & WRITE_MASK == 0,
        write_frame(register, payload)[0] == register.spec_addr() + WRITE_MASK,
        write_frame(register, payload)[0] & WRITE_MASK == WRITE_MASK,
        write_frame(register, payload)[0] & 0x7F == register.spec_addr(),
{
    let address = register.spec_addr();
    lemma_seven_bits(address);
    assert(address <= 0x7F ==> (address | 0x80) == address + 0x80 && (address | 0x80) & 0x80
        == 0x80 && (address | 0x80) & 0x7F == address) by (bit_vector);
}

/// A read frame is the address and four zeros; a write frame is the flagged
/// address and the payload, byte for byte.
pub proof fn lemma_frame_layout(register: Registers, payload: Seq<u8>)
    requires
        payload.len() == 4,
    ensures
        read_frame(register).len() == 5,
        read_frame(register).subrange(1, 5) == seq![0u8, 0u8, 0u8, 0u8],
        write_frame(register, payload).len() == 5,
        write_frame(register, payload).subrange(1, 5) == payload,
{
}

} // verus!
