use it9910hd::wire::{
    push_le_u32, read_le_i32, read_le_u32, signed_of, word_of, write_le_i32, write_le_u32,
};

#[test]
fn write_le_u32_puts_the_low_byte_first() {
    let mut buf = [0xAAu8; 6];
    write_le_u32(&mut buf, 0x9910_E001);
    assert_eq!(buf, [0x01, 0xE0, 0x10, 0x99, 0xAA, 0xAA]);
}

#[test]
fn write_le_u32_agrees_with_std() {
    for val in [0u32, 1, 0xFF, 0x100, 0x1234_5678, 0x8000_0000, u32::MAX] {
        let mut buf = [0u8; 4];
        write_le_u32(&mut buf, val);
        assert_eq!(buf, val.to_le_bytes());
    }
}

#[test]
fn write_le_i32_uses_twos_complement() {
    let mut buf = [0u8; 4];
    write_le_i32(&mut buf, -1);
    assert_eq!(buf, [0xFF, 0xFF, 0xFF, 0xFF]);
    write_le_i32(&mut buf, -100);
    assert_eq!(buf, [0x9C, 0xFF, 0xFF, 0xFF]);
    write_le_i32(&mut buf, i32::MIN);
    assert_eq!(buf, [0x00, 0x00, 0x00, 0x80]);
    write_le_i32(&mut buf, i32::MAX);
    assert_eq!(buf, [0xFF, 0xFF, 0xFF, 0x7F]);
    write_le_i32(&mut buf, 100);
    assert_eq!(buf, [100, 0, 0, 0]);
}

#[test]
fn write_leaves_the_rest_alone() {
    let mut buf = [1u8, 2, 3, 4, 5, 6, 7, 8];
    write_le_i32(&mut buf[2..6], 0);
    assert_eq!(buf, [1, 2, 0, 0, 0, 0, 7, 8]);
}

#[test]
fn read_le_u32_reads_the_first_four_bytes() {
    assert_eq!(read_le_u32(&[0x01, 0x40, 0x38, 0x38, 0xFF]), 0x3838_4001);
    assert_eq!(read_le_u32(&[0xFF, 0xFF, 0xFF, 0xFF]), u32::MAX);
    assert_eq!(read_le_u32(&[0, 0, 0, 0]), 0);
}

#[test]
fn read_le_i32_reads_signed() {
    assert_eq!(read_le_i32(&[0xFF, 0xFF, 0xFF, 0xFF]), -1);
    assert_eq!(read_le_i32(&[0x00, 0x00, 0x00, 0x80]), i32::MIN);
    assert_eq!(read_le_i32(&[0xFF, 0xFF, 0xFF, 0x7F]), i32::MAX);
    assert_eq!(read_le_i32(&[1, 0, 0, 0]), 1);
}

#[test]
fn reading_gives_back_what_writing_stored() {
    for val in [0i32, 1, -1, 25, -100, 1000, i32::MIN, i32::MAX, 0x1234_5678] {
        let mut buf = [0u8; 4];
        write_le_i32(&mut buf, val);
        assert_eq!(read_le_i32(&buf), val);
        assert_eq!(buf, val.to_le_bytes());
    }
    for val in [0u32, 7, 0x9910_0000, u32::MAX] {
        let mut buf = [0u8; 4];
        write_le_u32(&mut buf, val);
        assert_eq!(read_le_u32(&buf), val);
    }
}

#[test]
fn words_and_signed_numbers_convert_both_ways() {
    assert_eq!(word_of(-1), u32::MAX);
    assert_eq!(word_of(0), 0);
    assert_eq!(word_of(i32::MIN), 0x8000_0000);
    assert_eq!(signed_of(u32::MAX), -1);
    assert_eq!(signed_of(0x8000_0000), i32::MIN);
    assert_eq!(signed_of(0x7FFF_FFFF), i32::MAX);
    for val in [-5i32, 0, 5, i32::MIN, i32::MAX] {
        assert_eq!(signed_of(word_of(val)), val);
    }
}

#[test]
fn push_le_u32_appends_four_bytes() {
    let mut out = vec![9u8];
    push_le_u32(&mut out, 0x0102_0304);
    push_le_u32(&mut out, 15);
    assert_eq!(out, vec![9, 4, 3, 2, 1, 15, 0, 0, 0]);
}
