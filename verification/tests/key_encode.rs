use sleigh::key_encode::{encode_key, KeyEncoder};
use sleigh::Error;

#[test]
fn u64_key() {
    let key: u64 = 0x01_23_45_67_89_ab_cd_ef;
    assert_eq!(
        encode_key(&key),
        vec![0x01, 0x23, 0x45, 0x67, 0x89, 0xab, 0xcd, 0xef],
    );
}

#[test]
fn i64_key() {
    let key: i64 = -2;
    assert_eq!(
        encode_key(&key),
        vec![0xff, 0xff, 0xff, 0xff, 0xff, 0xff, 0xff, 0xfe],
    );
}

#[test]
fn u32_key() {
    let key: u32 = 0x01_23_45_67;
    assert_eq!(encode_key(&key), vec![0x01, 0x23, 0x45, 0x67],);
}

#[test]
fn i32_key() {
    let key: i32 = -2;
    assert_eq!(encode_key(&key), vec![0xff, 0xff, 0xff, 0xfe],);
}

#[test]
fn u16_key() {
    let key: u16 = 0x01_23;
    assert_eq!(encode_key(&key), vec![0x01, 0x23],);
}

#[test]
fn i16_key() {
    let key: i16 = -2;
    assert_eq!(encode_key(&key), vec![0xff, 0xfe],);
}

#[test]
fn str_key() {
    let key = "hello world".to_string();
    assert_eq!(String::from_utf8(encode_key(&key)).unwrap(), key);
}

#[test]
fn str_key_is_its_utf8_bytes() {
    let key = "hello world".to_string();
    assert_eq!(encode_key(&key), b"hello world".to_vec());
    assert_eq!(key.key_len(), 11);
    let key = "h\u{e9}llo \u{4e16}\u{754c}".to_string();
    assert_eq!(encode_key(&key), key.as_bytes().to_vec());
    assert_eq!(key.key_len(), 13);
    assert_eq!(encode_key(&String::new()), Vec::<u8>::new());
}

#[test]
fn key_len_is_the_width_of_the_type() {
    assert_eq!(7u16.key_len(), 2);
    assert_eq!((-7i16).key_len(), 2);
    assert_eq!(7u32.key_len(), 4);
    assert_eq!((-7i32).key_len(), 4);
    assert_eq!(7u64.key_len(), 8);
    assert_eq!((-7i64).key_len(), 8);
}

#[test]
fn integers_decode_to_what_was_encoded() {
    for v in [0u16, 1, 0x0123, 0x7fff, 0x8000, u16::MAX] {
        assert_eq!(u16::decode_key(&encode_key(&v)), Ok(v));
    }
    for v in [i16::MIN, -2, -1, 0, 1, 0x0123, i16::MAX] {
        assert_eq!(i16::decode_key(&encode_key(&v)), Ok(v));
    }
    for v in [0u32, 1, 0x0123_4567, 0x7fff_ffff, 0x8000_0000, u32::MAX] {
        assert_eq!(u32::decode_key(&encode_key(&v)), Ok(v));
    }
    for v in [i32::MIN, -2, -1, 0, 1, 0x0123_4567, i32::MAX] {
        assert_eq!(i32::decode_key(&encode_key(&v)), Ok(v));
    }
    for v in [0u64, 1, 0x0123_4567_89ab_cdef, 1 << 63, u64::MAX] {
        assert_eq!(u64::decode_key(&encode_key(&v)), Ok(v));
    }
    for v in [i64::MIN, -2, -1, 0, 1, 0x0123_4567_89ab_cdef, i64::MAX] {
        assert_eq!(i64::decode_key(&encode_key(&v)), Ok(v));
    }
}

#[test]
fn decode_reads_exact_values() {
    assert_eq!(u16::decode_key(&[0x01, 0x23]), Ok(0x0123));
    assert_eq!(i16::decode_key(&[0xff, 0xfe]), Ok(-2));
    assert_eq!(u32::decode_key(&[0x01, 0x23, 0x45, 0x67]), Ok(0x0123_4567));
    assert_eq!(i32::decode_key(&[0xff, 0xff, 0xff, 0xfe]), Ok(-2));
    assert_eq!(
        u64::decode_key(&[0x01, 0x23, 0x45, 0x67, 0x89, 0xab, 0xcd, 0xef]),
        Ok(0x0123_4567_89ab_cdef)
    );
    assert_eq!(i64::decode_key(&[0xff; 8]), Ok(-1));
    assert_eq!(i64::decode_key(&[0x80, 0, 0, 0, 0, 0, 0, 0]), Ok(i64::MIN));
}

#[test]
fn decode_ignores_what_follows_the_key() {
    assert_eq!(u16::decode_key(&[0x01, 0x23, 0x99]), Ok(0x0123));
    assert_eq!(i32::decode_key(&[0xff, 0xff, 0xff, 0xfe, 0x01, 0x02]), Ok(-2));
}

#[test]
fn text_decodes_to_what_was_encoded() {
    for s in ["hello world", "", "h\u{e9}llo", "\u{4e16}\u{754c}", "\u{1f600}"] {
        let key = s.to_string();
        assert_eq!(String::decode_key(&encode_key(&key)), Ok(key));
    }
}

#[test]
fn text_that_is_not_utf8_is_an_invalid_encoding() {
    assert_eq!(String::decode_key(&[0xff, 0xfe]), Err(Error::InvalidEncoding));
    assert_eq!(String::decode_key(&[0x68, 0xc3]), Err(Error::InvalidEncoding));
    assert_eq!(String::decode_key(&[0xed, 0xa0, 0x80]), Err(Error::InvalidEncoding));
}

#[test]
fn short_input_is_truncated_input() {
    assert_eq!(u16::decode_key(&[0x01]), Err(Error::TruncatedInput));
    assert_eq!(i16::decode_key(&[]), Err(Error::TruncatedInput));
    assert_eq!(u32::decode_key(&[1, 2, 3]), Err(Error::TruncatedInput));
    assert_eq!(i32::decode_key(&[1, 2, 3]), Err(Error::TruncatedInput));
    assert_eq!(u64::decode_key(&[1, 2, 3, 4, 5, 6, 7]), Err(Error::TruncatedInput));
    assert_eq!(i64::decode_key(&[1, 2, 3, 4, 5, 6, 7]), Err(Error::TruncatedInput));
}

#[test]
fn short_buffer_is_truncated_input_and_stays_as_it_was() {
    let mut buf = [0xaa_u8; 1];
    assert_eq!(0x0123u16.encode_key(&mut buf), Err(Error::TruncatedInput));
    assert_eq!(buf, [0xaa]);
    let mut buf = [0xaa_u8; 3];
    assert_eq!(7i32.encode_key(&mut buf), Err(Error::TruncatedInput));
    assert_eq!(buf, [0xaa; 3]);
    let mut buf = [0xaa_u8; 7];
    assert_eq!(7u64.encode_key(&mut buf), Err(Error::TruncatedInput));
    assert_eq!(buf, [0xaa; 7]);
    let mut buf = [0xaa_u8; 4];
    assert_eq!("hello".to_string().encode_key(&mut buf), Err(Error::TruncatedInput));
    assert_eq!(buf, [0xaa; 4]);
}

#[test]
fn encode_writes_the_start_of_a_longer_buffer() {
    let mut buf = [0xaa_u8; 4];
    assert_eq!(0x0123u16.encode_key(&mut buf), Ok(2));
    assert_eq!(buf, [0x01, 0x23, 0xaa, 0xaa]);
    let mut buf = [0xaa_u8; 10];
    assert_eq!((-2i64).encode_key(&mut buf), Ok(8));
    assert_eq!(buf, [0xff, 0xff, 0xff, 0xff, 0xff, 0xff, 0xff, 0xfe, 0xaa, 0xaa]);
    let mut buf = [0xaa_u8; 4];
    assert_eq!("hi".to_string().encode_key(&mut buf), Ok(2));
    assert_eq!(buf, [0x68, 0x69, 0xaa, 0xaa]);
}

#[test]
fn unsigned_keys_sort_as_numbers() {
    let keys = [0u64, 1, 255, 256, 0x0123_4567_89ab_cdef, 1 << 63, u64::MAX];
    for pair in keys.windows(2) {
        assert!(encode_key(&pair[0]) < encode_key(&pair[1]));
    }
    let keys = [0u16, 1, 255, 256, 0x7fff, 0x8000, u16::MAX];
    for pair in keys.windows(2) {
        assert!(encode_key(&pair[0]) < encode_key(&pair[1]));
    }
    let keys = [0u32, 1, 255, 256, 0x7fff_ffff, 0x8000_0000, u32::MAX];
    for pair in keys.windows(2) {
        assert!(encode_key(&pair[0]) < encode_key(&pair[1]));
    }
}

#[test]
fn negative_keys_sort_after_the_others() {
    let keys = [0i32, 1, i32::MAX, i32::MIN, -2, -1];
    for pair in keys.windows(2) {
        assert!(encode_key(&pair[0]) < encode_key(&pair[1]));
    }
    assert!(encode_key(&5i64) < encode_key(&-5i64));
    assert!(encode_key(&-5i16) < encode_key(&-4i16));
}
