use rocket_os::endian::{read_i16_be, write_i16_be};

#[test]
fn reads_big_endian_words() {
    assert_eq!(read_i16_be(0x00, 0x00), 0);
    assert_eq!(read_i16_be(0x00, 0x01), 1);
    assert_eq!(read_i16_be(0x01, 0x00), 256);
    assert_eq!(read_i16_be(0x40, 0x00), 16384);
    assert_eq!(read_i16_be(0x7F, 0xFF), i16::MAX);
    assert_eq!(read_i16_be(0x80, 0x00), i16::MIN);
    assert_eq!(read_i16_be(0xFF, 0xFF), -1);
    assert_eq!(read_i16_be(0xFF, 0x00), -256);
}

#[test]
fn writes_big_endian_words() {
    assert_eq!(write_i16_be(0), (0x00, 0x00));
    assert_eq!(write_i16_be(1), (0x00, 0x01));
    assert_eq!(write_i16_be(0x1234), (0x12, 0x34));
    assert_eq!(write_i16_be(i16::MAX), (0x7F, 0xFF));
    assert_eq!(write_i16_be(i16::MIN), (0x80, 0x00));
    assert_eq!(write_i16_be(-1), (0xFF, 0xFF));
}

#[test]
fn agrees_with_std_on_every_word() {
    for value in i16::MIN..=i16::MAX {
        let [hi, lo] = value.to_be_bytes();
        assert_eq!(write_i16_be(value), (hi, lo));
        assert_eq!(read_i16_be(hi, lo), value);
    }
}
