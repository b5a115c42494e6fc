use tmc5130::frame::{read_request, write_request, WRITE_MASK};
use tmc5130::Registers;

#[test]
fn write_mask_is_the_top_bit() {
    assert_eq!(WRITE_MASK, 0x80);
}

#[test]
fn read_frame_is_address_and_zeros() {
    assert_eq!(read_request(Registers::XACTUAL), [0x21, 0x00, 0x00, 0x00, 0x00]);
    assert_eq!(read_request(Registers::GCONF), [0x00, 0x00, 0x00, 0x00, 0x00]);
    assert_eq!(read_request(Registers::LOST_STEPS), [0x73, 0x00, 0x00, 0x00, 0x00]);
}

#[test]
fn write_frame_is_flagged_address_and_payload() {
    assert_eq!(
        write_request(Registers::VMAX, [0xFB, 0xFF, 0xFF, 0xFF]),
        [0xA7, 0xFB, 0xFF, 0xFF, 0xFF]
    );
    assert_eq!(write_request(Registers::GCONF, [1, 2, 3, 4]), [0x80, 1, 2, 3, 4]);
    assert_eq!(write_request(Registers::LOST_STEPS, [0, 0, 0, 0]), [0xF3, 0, 0, 0, 0]);
}

#[test]
fn command_byte_tells_read_from_write() {
    for register in [Registers::GCONF, Registers::XACTUAL, Registers::D1, Registers::LOST_STEPS] {
        let read = read_request(register);
        let write = write_request(register, [9, 8, 7, 6]);
        assert_eq!(read[0], register.addr());
        assert_eq!(read[0] & 0x80, 0);
        assert_eq!(write[0], register.addr() | 0x80);
        assert_eq!(write[0] & 0x80, 0x80);
        assert_eq!(write[0] & 0x7F, register.addr());
        assert_eq!(&write[1..], &[9, 8, 7, 6]);
        assert_eq!(&read[1..], &[0, 0, 0, 0]);
    }
}
