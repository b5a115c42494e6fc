//! The register address table.

use vstd::prelude::*;

verus! {

/// The addressable registers of the chip.
#[allow(non_camel_case_types)]
#[derive(Copy, Clone, PartialEq, Eq, Debug, Structural)]
pub enum Registers {
    /// Global configuration flags
    GCONF,
    /// Global status flags
    GSTAT,
    /// UART transmission counter
    IFCNT,
    /// UART slave configuration
    NODECONF,
    /// Read input / write output pins
    IOIN,
    /// Position comparison register
    X_COMPARE,
    /// Driver current control
    IHOLD_IRUN,
    /// Delay before power down
    TPOWERDOWN,
    /// Actual time between microsteps
    TSTEP,
    /// Upper velocity for stealthChop voltage PWM mode
    TPWMTHRS,
    /// Lower threshold velocity for switching on coolStep and stallGuard
    TCOOLTHRS,
    /// Velocity threshold for switching into a different chopper mode and fullstepping
    THIGH,
    /// Driving mode (velocity, positioning, hold)
    RAMPMODE,
    /// Actual motor position
    XACTUAL,
    /// Actual motor velocity from the ramp generator
    VACTUAL,
    /// Motor start velocity
    VSTART,
    /// First acceleration, between VSTART and V1
    A1,
    /// Target velocity of the first acceleration and deceleration phase
    V1,
    /// Second acceleration, between V1 and VMAX
    AMAX,
    /// Target velocity in velocity mode
    VMAX,
    /// Deceleration between VMAX and V1
    DMAX,
    /// Deceleration between V1 and VSTOP; must not be 0 in positioning mode
    D1,
    /// Motor stop velocity; must be above VSTART and not 0 in positioning mode
    VSTOP,
    /// Waiting time at zero velocity before the next movement or direction change
    TZEROWAIT,
    /// Target position for ramp mode
    XTARGET,
    /// Velocity threshold for enabling automatic commutation dcStep
    VDCMIN,
    /// Switch mode configuration
    SW_MODE,
    /// Ramp status and switch event status
    RAMP_STAT,
    /// Ramp generator latch position upon programmable switch event
    XLATCH,
    /// Encoder configuration and use of N channel
    ENCMODE,
    /// Actual encoder position
    X_ENC,
    /// Accumulation constant
    ENC_CONST,
    /// Encoder status information
    ENC_STATUS,
    /// Encoder position latched on N event
    ENC_LATCH,
    /// Maximum deviation between encoder counter and XACTUAL before a warning
    ENC_DEVIATION,
    /// Microstep table entries; the seven registers that follow continue the table
    MSLUT_0_7,
    /// Look up table segmentation definition
    MSLUTSEL,
    /// Absolute current at microstep table entries 0 and 256
    MSLUTSTART,
    /// Actual position in the microstep table
    MSCNT,
    /// Actual microstep current
    MSCURACT,
    /// Chopper and driver configuration
    CHOPCONF,
    /// coolStep smart current control and stallGuard2 configuration
    COOLCONF,
    /// dcStep automatic commutation configuration
    DCCTRL,
    /// stallGuard2 value and driver error flags
    DRV_STATUS,
    /// stealthChop voltage PWM mode chopper configuration
    PWMCONF,
    /// Results of the stealthChop amplitude regulator
    PWM_SCALE,
    /// Encoder mode configuration for a special mode, not for normal use
    ENCM_CTRL,
    /// Number of input steps skipped due to dcStep
    LOST_STEPS,
}

/// The highest address any register has.
pub const MAX_ADDRESS: u8 = 0x73;

impl Registers {
    /// The address of a register inside the chip.
    pub open spec fn spec_addr(&self) -> u8 {
        match self {
            Registers::GCONF => 0x00,
            Registers::GSTAT => 0x01,
            Registers::IFCNT => 0x02,
            Registers::NODECONF => 0x03,
            Registers::IOIN => 0x04,
            Registers::X_COMPARE => 0x05,
            Registers::IHOLD_IRUN => 0x10,
            Registers::TPOWERDOWN => 0x11,
            Registers::TSTEP => 0x12,
            Registers::TPWMTHRS => 0x13,
            Registers::TCOOLTHRS => 0x14,
            Registers::THIGH => 0x15,
            Registers::RAMPMODE => 0x20,
            Registers::XACTUAL => 0x21,
            Registers::VACTUAL => 0x22,
            Registers::VSTART => 0x23,
            Registers::A1 => 0x24,
            Registers::V1 => 0x25,
            Registers::AMAX => 0x26,
            Registers::VMAX => 0x27,
            Registers::DMAX => 0x28,
            Registers::D1 => 0x2A,
            Registers::VSTOP => 0x2B,
            Registers::TZEROWAIT => 0x2C,
            Registers::XTARGET => 0x2D,
            Registers::VDCMIN => 0x33,
            Registers::SW_MODE => 0x34,
            Registers::RAMP_STAT => 0x35,
            Registers::XLATCH => 0x36,
            Registers::ENCMODE => 0x38,
            Registers::X_ENC => 0x39,
            Registers::ENC_CONST => 0x3A,
            Registers::ENC_STATUS => 0x3B,
            Registers::ENC_LATCH => 0x3C,
            Registers::ENC_DEVIATION => 0x3D,
            Registers::MSLUT_0_7 => 0x60,
            Registers::MSLUTSEL => 0x68,
            Registers::MSLUTSTART => 0x69,
            Registers::MSCNT => 0x6A,
            Registers::MSCURACT => 0x6B,
            Registers::CHOPCONF => 0x6C,
            Registers::COOLCONF => 0x6D,
            Registers::DCCTRL => 0x6E,
            Registers::DRV_STATUS => 0x6F,
            Registers::PWMCONF => 0x70,
            Registers::PWM_SCALE => 0x71,
            Registers::ENCM_CTRL => 0x72,
            Registers::LOST_STEPS => 0x73,
        }
    }

    /// The address of this register: seven bits, so that the eighth is free
    /// to tell a write from a read.
    #[verifier::when_used_as_spec(spec_addr)]
    pub fn addr(&self) -> (address: u8)
        ensures
            address == self.spec_addr(),
            address <= MAX_ADDRESS,
            address & 0x80 == 0,
    {
        let address: u8 = match self {
            Registers::GCONF => 0x00,
            Registers::GSTAT => 0x01,
            Registers::IFCNT => 0x02,
            Registers::NODECONF => 0x03,
            Registers::IOIN => 0x04,
            Registers::X_COMPARE => 0x05,
            Registers::IHOLD_IRUN => 0x10,
            Registers::TPOWERDOWN => 0x11,
            Registers::TSTEP => 0x12,
            Registers::TPWMTHRS => 0x13,
            Registers::TCOOLTHRS => 0x14,
            Registers::THIGH => 0x15,
            Registers::RAMPMODE => 0x20,
            Registers::XACTUAL => 0x21,
            Registers::VACTUAL => 0x22,
            Registers::VSTART => 0x23,
            Registers::A1 => 0x24,
            Registers::V1 => 0x25,
            Registers::AMAX => 0x26,
            Registers::VMAX => 0x27,
            Registers::DMAX => 0x28,
            Registers::D1 => 0x2A,
            Registers::VSTOP => 0x2B,
            Registers::TZEROWAIT => 0x2C,
            Registers::XTARGET => 0x2D,
            Registers::VDCMIN => 0x33,
            Registers::SW_MODE => 0x34,
            Registers::RAMP_STAT => 0x35,
            Registers::XLATCH => 0x36,
            Registers::ENCMODE => 0x38,
            Registers::X_ENC => 0x39,
            Registers::ENC_CONST => 0x3A,
            Registers::ENC_STATUS => 0x3B,
            Registers::ENC_LATCH => 0x3C,
            Registers::ENC_DEVIATION => 0x3D,
            Registers::MSLUT_0_7 => 0x60,
            Registers::MSLUTSEL => 0x68,
            Registers::MSLUTSTART => 0x69,
            Registers::MSCNT => 0x6A,
            Registers::MSCURACT => 0x6B,
            Registers::CHOPCONF => 0x6C,
            Registers::COOLCONF => 0x6D,
            Registers::DCCTRL => 0x6E,
            Registers::DRV_STATUS => 0x6F,
            Registers::PWMCONF => 0x70,
            Registers::PWM_SCALE => 0x71,
            Registers::ENCM_CTRL => 0x72,
            Registers::LOST_STEPS => 0x73,
        };
        proof {
            lemma_seven_bits(address);
        }
        address
    }
}

/// A byte no greater than `0x7F` has its top bit clear.
pub proof fn lemma_seven_bits(byte: u8)
    requires
        byte <= 0x7F,
    ensures
        byte & 0x80 == 0,
{
    assert(byte <= 0x7F ==> byte & 0x80 == 0) by (bit_vector);
}

/// Every register address fits in seven bits.
pub proof fn lemma_addr_in_range(register: Registers)
    ensures
        register.spec_addr() <= MAX_ADDRESS,
        register.spec_addr() & 0x80 == 0,
{
    lemma_seven_bits(register.spec_addr());
}

/// No two registers share an address.
pub proof fn lemma_addr_distinct(first: Registers, second: Registers)
    requires
        first != second,
    ensures
        first.spec_addr() != second.spec_addr(),
{
}

} // verus!
