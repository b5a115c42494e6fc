use tmc5130::status::{
    DRIVER_ERROR, POSITION_REACHED, RESET_FLAG, STALL_FLAG, STANDSTILL, STOP_LEFT, STOP_RIGHT,
    VELOCITY_REACHED,
};
use tmc5130::TmcStatus;

fn flags(status: TmcStatus) -> [bool; 8] {
    [
        status.stop_left(),
        status.stop_right(),
        status.position_reached(),
        status.velocity_reached(),
        status.standstill(),
        status.stall_flag(),
        status.driver_error(),
        status.reset_flag(),
    ]
}

#[test]
fn stop_left_and_reset_flag_alone() {
    let status = TmcStatus(0b1000_0001);
    assert!(status.stop_left());
    assert!(status.reset_flag());
    assert!(!status.stop_right());
    assert!(!status.position_reached());
    assert!(!status.velocity_reached());
    assert!(!status.standstill());
    assert!(!status.stall_flag());
    assert!(!status.driver_error());
}

#[test]
fn no_flag_in_a_zero_byte() {
    assert_eq!(flags(TmcStatus(0x00)), [false; 8]);
}

#[test]
fn every_flag_in_a_full_byte() {
    assert_eq!(flags(TmcStatus(0xFF)), [true; 8]);
}

#[test]
fn each_flag_has_its_own_bit() {
    assert_eq!(flags(TmcStatus(0x80)), [true, false, false, false, false, false, false, false]);
    assert_eq!(flags(TmcStatus(0x40)), [false, true, false, false, false, false, false, false]);
    assert_eq!(flags(TmcStatus(0x20)), [false, false, true, false, false, false, false, false]);
    assert_eq!(flags(TmcStatus(0x10)), [false, false, false, true, false, false, false, false]);
    assert_eq!(flags(TmcStatus(0x08)), [false, false, false, false, true, false, false, false]);
    assert_eq!(flags(TmcStatus(0x04)), [false, false, false, false, false, true, false, false]);
    assert_eq!(flags(TmcStatus(0x02)), [false, false, false, false, false, false, true, false]);
    assert_eq!(flags(TmcStatus(0x01)), [false, false, false, false, false, false, false, true]);
}

#[test]
fn flags_are_the_bits_of_the_byte() {
    for byte in 0..=255u8 {
        let status = TmcStatus(byte);
        assert_eq!(status.stop_left(), byte & STOP_LEFT != 0);
        assert_eq!(status.stop_right(), byte & STOP_RIGHT != 0);
        assert_eq!(status.position_reached(), byte & POSITION_REACHED != 0);
        assert_eq!(status.velocity_reached(), byte & VELOCITY_REACHED != 0);
        assert_eq!(status.standstill(), byte & STANDSTILL != 0);
        assert_eq!(status.stall_flag(), byte & STALL_FLAG != 0);
        assert_eq!(status.driver_error(), byte & DRIVER_ERROR != 0);
        assert_eq!(status.reset_flag(), byte & RESET_FLAG != 0);
    }
}

#[test]
fn the_byte_is_the_sum_of_its_flags() {
    for byte in 0..=255u8 {
        let weights = [0x80u8, 0x40, 0x20, 0x10, 0x08, 0x04, 0x02, 0x01];
        let mut sum = 0u8;
        for (flag, weight) in flags(TmcStatus(byte)).iter().zip(weights) {
            if *flag {
                sum += weight;
            }
        }
        assert_eq!(sum, byte);
    }
}

#[test]
fn masks_are_single_bits_in_order() {
    assert_eq!(
        [
            STOP_LEFT,
            STOP_RIGHT,
            POSITION_REACHED,
            VELOCITY_REACHED,
            STANDSTILL,
            STALL_FLAG,
            DRIVER_ERROR,
            RESET_FLAG
        ],
        [0x80, 0x40, 0x20, 0x10, 0x08, 0x04, 0x02, 0x01]
    );
}
