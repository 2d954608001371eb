use hd2re::bytes::{load_word, read_u32, read_u64};

const BYTES: [u8; 10] = [0x01, 0x02, 0x03, 0x04, 0x05, 0x06, 0x07, 0x08, 0x09, 0xFF];

#[test]
fn word_of_eight_bytes_is_little_endian() {
    assert_eq!(load_word(&BYTES, 0, 8), 0x0807_0605_0403_0201);
    assert_eq!(load_word(&BYTES, 2, 8), 0xFF09_0807_0605_0403);
    assert_eq!(load_word(&[0xFF; 8], 0, 8), u64::MAX);
}

#[test]
fn shorter_word_is_zero_extended() {
    assert_eq!(load_word(&BYTES, 0, 0), 0);
    assert_eq!(load_word(&BYTES, 9, 1), 0xFF);
    assert_eq!(load_word(&BYTES, 1, 3), 0x04_0302);
    assert_eq!(load_word(&BYTES, 3, 7), 0x00FF_0908_0706_0504);
    assert_eq!(load_word(&BYTES, 10, 0), 0);
}

#[test]
fn integers_are_read_at_their_place() {
    assert_eq!(read_u32(&BYTES, 0), 0x0403_0201);
    assert_eq!(read_u32(&BYTES, 6), 0xFF09_0807);
    assert_eq!(read_u64(&BYTES, 1), 0x0908_0706_0504_0302);
    assert_eq!(read_u32(&[0xFF; 4], 0), u32::MAX);
    assert_eq!(read_u64(&[0; 8], 0), 0);
}
