//! The status byte that opens every response of the chip.

use vstd::prelude::*;

verus! {

/// Mask of the flag that signals the left stop switch.
pub const STOP_LEFT: u8 = 0x80;

/// Mask of the flag that signals the right stop switch.
pub const STOP_RIGHT: u8 = 0x40;

/// Mask of the flag that signals that the target position is reached.
pub const POSITION_REACHED: u8 = 0x20;

/// Mask of the flag that signals that the target velocity is reached.
pub const VELOCITY_REACHED: u8 = 0x10;

/// Mask of the flag that signals motor stand still.
pub const STANDSTILL: u8 = 0x08;

/// Mask of the flag that signals an active StallGuard.
pub const STALL_FLAG: u8 = 0x04;

/// Mask of the flag that signals a driver error.
pub const DRIVER_ERROR: u8 = 0x02;

/// Mask of the flag that signals that a reset has occurred.
pub const RESET_FLAG: u8 = 0x01;

/// The first byte of a response. The chip sends it in every transaction,
/// read or write; it tells of the chip, not of the register addressed.
#[derive(Copy, Clone, PartialEq, Eq, Debug)]
pub struct TmcStatus(pub u8);

impl TmcStatus {
    /// Whether the byte has any bit of `mask` set.
    pub open spec fn has(&self, mask: u8) -> bool {
        self.0 & mask != 0
    }

    /// Bit 7: status of the left stop switch.
    pub fn stop_left(&self) -> (flag: bool)
        ensures
            flag == self.has(STOP_LEFT),
    {
        assert(1u8 << 7usize == 0x80u8) by (bit_vector);
        bit(self.0, 7)
    }

    /// Bit 6: status of the right stop switch.
    pub fn stop_right(&self) -> (flag: bool)
        ensures
            flag == self.has(STOP_RIGHT),
    {
        assert(1u8 << 6usize == 0x40u8) by (bit_vector);
        bit(self.0, 6)
    }

    /// Bit 5: the target position is reached.
    pub fn position_reached(&self) -> (flag: bool)
        ensures
            flag == self.has(POSITION_REACHED),
    {
        assert(1u8 << 5usize == 0x20u8) by (bit_vector);
        bit(self.0, 5)
    }

    /// Bit 4: the target velocity is reached.
    pub fn velocity_reached(&self) -> (flag: bool)
        ensures
            flag == self.has(VELOCITY_REACHED),
    {
        assert(1u8 << 4usize == 0x10u8) by (bit_vector);
        bit(self.0, 4)
    }

    /// Bit 3: the motor stands still.
    pub fn standstill(&self) -> (flag: bool)
        ensures
            flag == self.has(STANDSTILL),
    {
        assert(1u8 << 3usize == 0x08u8) by (bit_vector);
        bit(self.0, 3)
    }

    /// Bit 2: StallGuard is active.
    pub fn stall_flag(&self) -> (flag: bool)
        ensures
            flag == self.has(STALL_FLAG),
    {
        assert(1u8 << 2usize == 0x04u8) by (bit_vector);
        bit(self.0, 2)
    }

    /// Bit 1: the driver reports an error.
    pub fn driver_error(&self) -> (flag: bool)
        ensures
            flag == self.has(DRIVER_ERROR),
    {
        assert(1u8 << 1usize == 0x02u8) by (bit_vector);
        bit(self.0, 1)
    }

    /// Bit 0: a reset has occurred.
    pub fn reset_flag(&self) -> (flag: bool)
        ensures
            flag == self.has(RESET_FLAG),
    {
        assert(1u8 << 0usize == 0x01u8) by (bit_vector);
        bit(self.0, 0)
    }
}

/// The weight that a flag adds to the byte when it is set.
pub open spec fn weight(flag: bool, mask: u8) -> int {
    if flag {
        mask as int
    } else {
        0
    }
}

/// The flags are the bits of the byte and nothing else: the byte is the sum
/// of the masks of the flags that are set, so two status bytes with the same
/// eight flags are the same byte.
pub proof fn lemma_status_is_its_flags(status: TmcStatus)
    ensures
        status.0 == weight(status.has(STOP_LEFT), STOP_LEFT) + weight(
            status.has(STOP_RIGHT),
            STOP_RIGHT,
        ) + weight(status.has(POSITION_REACHED), POSITION_REACHED) + weight(
            status.has(VELOCITY_REACHED),
            VELOCITY_REACHED,
        ) + weight(status.has(STANDSTILL), STANDSTILL) + weight(
            status.has(STALL_FLAG),
            STALL_FLAG,
        ) + weight(status.has(DRIVER_ERROR), DRIVER_ERROR) + weight(
            status.has(RESET_FLAG),
            RESET_FLAG,
        ),
{
    let byte = status.0;
    assert(byte == (byte & 0x80) + (byte & 0x40) + (byte & 0x20) + (byte & 0x10) + (byte & 0x08)
        + (byte & 0x04) + (byte & 0x02) + (byte & 0x01)) by (bit_vector);
    assert(byte & 0x80 == 0 || byte & 0x80 == 0x80) by (bit_vector);
    assert(byte & 0x40 == 0 || byte & 0x40 == 0x40) by (bit_vector);
    assert(byte & 0x20 == 0 || byte & 0x20 == 0x20) by (bit_vector);
    assert(byte & 0x10 == 0 || byte & 0x10 == 0x10) by (bit_vector);
    assert(byte & 0x08 == 0 || byte & 0x08 == 0x08) by (bit_vector);
    assert(byte & 0x04 == 0 || byte & 0x04 == 0x04) by (bit_vector);
    assert(byte & 0x02 == 0 || byte & 0x02 == 0x02) by (bit_vector);
    assert(byte & 0x01 == 0 || byte & 0x01 == 0x01) by (bit_vector);
}

/// Calls `bitfield::Bit::bit` on a byte. For an index below 8 that function
/// shifts the byte so that only the bit at `index`, counted from the least
/// significant, is left, and tells whether it is set. It is not called with a
/// larger index, for which its shift distances would not fit the byte.
#[verifier::external_body]
fn bit(byte: u8, index: usize) -> (set: bool)
    requires
        index < 8,
    ensures
        set == (byte & (1u8 << index) != 0),
{
    bitfield::Bit::bit(&byte, index)
}

} // verus!
