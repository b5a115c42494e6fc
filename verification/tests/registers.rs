use tmc5130::registers::MAX_ADDRESS;
use tmc5130::Registers;

const ALL: [(Registers, u8); 48] = [
    (Registers::GCONF, 0x00),
    (Registers::GSTAT, 0x01),
    (Registers::IFCNT, 0x02),
    (Registers::NODECONF, 0x03),
    (Registers::IOIN, 0x04),
    (Registers::X_COMPARE, 0x05),
    (Registers::IHOLD_IRUN, 0x10),
    (Registers::TPOWERDOWN, 0x11),
    (Registers::TSTEP, 0x12),
    (Registers::TPWMTHRS, 0x13),
    (Registers::TCOOLTHRS, 0x14),
    (Registers::THIGH, 0x15),
    (Registers::RAMPMODE, 0x20),
    (Registers::XACTUAL, 0x21),
    (Registers::VACTUAL, 0x22),
    (Registers::VSTART, 0x23),
    (Registers::A1, 0x24),
    (Registers::V1, 0x25),
    (Registers::AMAX, 0x26),
    (Registers::VMAX, 0x27),
    (Registers::DMAX, 0x28),
    (Registers::D1, 0x2A),
    (Registers::VSTOP, 0x2B),
    (Registers::TZEROWAIT, 0x2C),
    (Registers::XTARGET, 0x2D),
    (Registers::VDCMIN, 0x33),
    (Registers::SW_MODE, 0x34),
    (Registers::RAMP_STAT, 0x35),
    (Registers::XLATCH, 0x36),
    (Registers::ENCMODE, 0x38),
    (Registers::X_ENC, 0x39),
    (Registers::ENC_CONST, 0x3A),
    (Registers::ENC_STATUS, 0x3B),
    (Registers::ENC_LATCH, 0x3C),
    (Registers::ENC_DEVIATION, 0x3D),
    (Registers::MSLUT_0_7, 0x60),
    (Registers::MSLUTSEL, 0x68),
    (Registers::MSLUTSTART, 0x69),
    (Registers::MSCNT, 0x6A),
    (Registers::MSCURACT, 0x6B),
    (Registers::CHOPCONF, 0x6C),
    (Registers::COOLCONF, 0x6D),
    (Registers::DCCTRL, 0x6E),
    (Registers::DRV_STATUS, 0x6F),
    (Registers::PWMCONF, 0x70),
    (Registers::PWM_SCALE, 0x71),
    (Registers::ENCM_CTRL, 0x72),
    (Registers::LOST_STEPS, 0x73),
];

#[test]
fn every_register_has_its_address() {
    for (register, address) in ALL {
        assert_eq!(register.addr(), address, "{:?}", register);
    }
}

#[test]
fn addresses_leave_the_write_bit_clear() {
    for (register, _) in ALL {
        assert!(register.addr() <= 0x7F);
        assert!(register.addr() <= MAX_ADDRESS);
        assert_eq!(register.addr() & 0x80, 0);
    }
}

#[test]
fn addresses_are_stable() {
    for (register, _) in ALL {
        assert_eq!(register.addr(), register.addr());
        let copy = register;
        assert_eq!(copy.addr(), register.addr());
    }
}

#[test]
fn no_two_registers_share_an_address() {
    for (i, (first, _)) in ALL.iter().enumerate() {
        for (second, _) in ALL.iter().skip(i + 1) {
            assert_ne!(first, second);
            assert_ne!(first.addr(), second.addr());
        }
    }
}

#[test]
fn position_and_velocity_registers() {
    assert_eq!(Registers::XACTUAL.addr(), 0x21);
    assert_eq!(Registers::VMAX.addr(), 0x27);
    assert_eq!(Registers::GCONF.addr(), 0x00);
    assert_eq!(Registers::LOST_STEPS.addr(), 0x73);
}
