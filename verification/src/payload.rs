//! The four payload bytes of a frame as a 32-bit value, least significant
//! byte first.

use vstd::arithmetic::div_mod::lemma_fundamental_div_mod_converse;
use vstd::prelude::*;

verus! {

/// The unsigned value that four payload bytes stand for.
pub open spec fn unsigned32_of(bytes: Seq<u8>) -> int {
    bytes[0] + 0x100 * bytes[1] + 0x1_0000 * bytes[2] + 0x100_0000 * bytes[3]
}

/// The two's-complement value that four payload bytes stand for.
pub open spec fn signed32_of(bytes: Seq<u8>) -> int {
    if unsigned32_of(bytes) < 0x8000_0000 {
        unsigned32_of(bytes)
    } else {
        unsigned32_of(bytes) - 0x1_0000_0000
    }
}

/// The payload bytes of an unsigned value.
pub open spec fn bytes_of_unsigned32(value: u32) -> Seq<u8> {
    seq![
        (value % 0x100) as u8,
        (value / 0x100 % 0x100) as u8,
        (value / 0x1_0000 % 0x100) as u8,
        (value / 0x100_0000) as u8,
    ]
}

/// The payload bytes of a signed value: those of its two's complement.
pub open spec fn bytes_of_signed32(value: i32) -> Seq<u8> {
    if value < 0 {
        bytes_of_unsigned32((value + 0x1_0000_0000) as u32)
    } else {
        bytes_of_unsigned32(value as u32)
    }
}

/// Writes an unsigned value as payload bytes.
pub fn serialize_unsigned32(value: u32) -> (bytes: [u8; 4])
    ensures
        bytes@ == bytes_of_unsigned32(value),
{
    let bytes: [u8; 4] = [
        (value % 0x100) as u8,
        (value / 0x100 % 0x100) as u8,
        (value / 0x1_0000 % 0x100) as u8,
        (value / 0x100_0000) as u8,
    ];
    bytes
}

/// Reads payload bytes as an unsigned value.
pub fn deserialize_unsigned32(bytes: [u8; 4]) -> (value: u32)
    ensures
        value == unsigned32_of(bytes@),
{
    bytes[0] as u32 + 0x100 * (bytes[1] as u32) + 0x1_0000 * (bytes[2] as u32) + 0x100_0000 * (
    bytes[3] as u32)
}

/// Writes a signed value as payload bytes.
pub fn serialize_signed32(value: i32) -> (bytes: [u8; 4])
    ensures
        bytes@ == bytes_of_signed32(value),
{
    if value < 0 {
        serialize_unsigned32((value as i64 + 0x1_0000_0000) as u32)
    } else {
        serialize_unsigned32(value as u32)
    }
}

/// Reads payload bytes as a signed value.
pub fn deserialize_signed32(bytes: [u8; 4]) -> (value: i32)
    ensures
        value == signed32_of(bytes@),
{
    let unsigned: u32 = deserialize_unsigned32(bytes);
    if unsigned < 0x8000_0000 {
        unsigned as i32
    } else {
        (unsigned as i64 - 0x1_0000_0000) as i32
    }
}

/// Reading back what was written gives the unsigned value again.
pub proof fn lemma_unsigned32_round_trip(value: u32)
    ensures
        bytes_of_unsigned32(value).len() == 4,
        unsigned32_of(bytes_of_unsigned32(value)) == value,
{
}

/// Reading back what was written gives the signed value again.
pub proof fn lemma_signed32_round_trip(value: i32)
    ensures
        bytes_of_signed32(value).len() == 4,
        signed32_of(bytes_of_signed32(value)) == value,
{
    if value < 0 {
        lemma_unsigned32_round_trip((value + 0x1_0000_0000) as u32);
    } else {
        lemma_unsigned32_round_trip(value as u32);
    }
}

/// Writing what was read gives the same four bytes again, whichever way they
/// were read: no two payloads stand for one value.
pub proof fn lemma_bytes_round_trip(bytes: Seq<u8>)
    requires
        bytes.len() == 4,
    ensures
        0 <= unsigned32_of(bytes) <= u32::MAX,
        i32::MIN <= signed32_of(bytes) <= i32::MAX,
        bytes_of_unsigned32(unsigned32_of(bytes) as u32) == bytes,
        bytes_of_signed32(signed32_of(bytes) as i32) == bytes,
{
    let value = unsigned32_of(bytes);
    let upper_three = bytes[1] + 0x100 * bytes[2] + 0x1_0000 * bytes[3];
    let upper_two = bytes[2] + 0x100 * bytes[3];
    lemma_fundamental_div_mod_converse(value, 0x100, upper_three, bytes[0] as int);
    lemma_fundamental_div_mod_converse(upper_three, 0x100, upper_two, bytes[1] as int);
    lemma_fundamental_div_mod_converse(
        value,
        0x1_0000,
        upper_two,
        bytes[0] + 0x100 * bytes[1],
    );
    lemma_fundamental_div_mod_converse(upper_two, 0x100, bytes[3] as int, bytes[2] as int);
    lemma_fundamental_div_mod_converse(
        value,
        0x100_0000,
        bytes[3] as int,
        bytes[0] + 0x100 * bytes[1] + 0x1_0000 * bytes[2],
    );
}

} // verus!
