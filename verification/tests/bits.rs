use voiturerc::bits::{
    bytes_from_word, read_bit16, read_bit8, read_field16, read_field8, signed_from_bytes,
    word_from_bytes, write_bit16, write_bit8, write_field16, write_field8,
};

#[test]
fn field8_roundtrip_preserves_value_and_other_bits() {
    let reg: u8 = 0b1011_0101;
    let written = write_field8(reg, 2, 3, 0b011);
    assert_eq!(read_field8(written, 2, 3), 0b011);
    // every bit outside the field is untouched
    let mask: u8 = 0b0001_1100;
    assert_eq!(written & !mask, reg & !mask);
}

#[test]
fn field8_write_clears_old_bits() {
    let reg: u8 = 0xFF;
    let written = write_field8(reg, 4, 2, 0b00);
    assert_eq!(read_field8(written, 4, 2), 0);
    assert_eq!(written, 0b1100_1111);
}

#[test]
fn field16_roundtrip_preserves_value_and_other_bits() {
    let reg: u16 = 0xA5C3;
    let written = write_field16(reg, 9, 3, 0b101);
    assert_eq!(read_field16(written, 9, 3), 0b101);
    let mask: u16 = 0b0000_1110_0000_0000;
    assert_eq!(written & !mask, reg & !mask);
}

#[test]
fn field16_full_width() {
    let written = write_field16(0x1234, 0, 16, 0xFEDC);
    assert_eq!(written, 0xFEDC);
    assert_eq!(read_field16(written, 0, 16), 0xFEDC);
}

#[test]
fn single_bits() {
    let set = write_bit8(0x00, 6, true);
    assert_eq!(set, 0x40);
    assert!(read_bit8(set, 6));
    assert!(!read_bit8(set, 5));
    let cleared = write_bit8(set, 6, false);
    assert_eq!(cleared, 0x00);

    let set16 = write_bit16(0x0000, 15, true);
    assert_eq!(set16, 0x8000);
    assert!(read_bit16(set16, 15));
    assert_eq!(write_bit16(set16, 15, false), 0x0000);
}

#[test]
fn words_and_bytes() {
    assert_eq!(word_from_bytes(0xAB, 0xCD), 0xABCD);
    assert_eq!(bytes_from_word(0xABCD), (0xAB, 0xCD));
    let (h, l) = bytes_from_word(0x00FF);
    assert_eq!(word_from_bytes(h, l), 0x00FF);
}

#[test]
fn signed_samples() {
    assert_eq!(signed_from_bytes(0x00, 0x00), 0);
    assert_eq!(signed_from_bytes(0x00, 0x7B), 123);
    assert_eq!(signed_from_bytes(0xFF, 0xFE), -2);
    assert_eq!(signed_from_bytes(0x7F, 0xFF), 32767);
    assert_eq!(signed_from_bytes(0x80, 0x00), -32768);
}
