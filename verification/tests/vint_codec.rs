use rsnex::errors::LoadError;
use rsnex::get_vint;

fn decode(bytes: &[u8]) -> Result<usize, LoadError> {
    let mut i: usize = 0;
    get_vint(bytes, &mut i)
}

#[test]
fn vint_single_byte_values() {
    assert_eq!(decode(&[0x00]), Ok(0));
    assert_eq!(decode(&[0x01]), Ok(1));
    assert_eq!(decode(&[0x7f]), Ok(127));
}

#[test]
fn vint_multi_byte_values() {
    // 128 = 0b1_0000000: two groups, high bit set on the first byte only.
    assert_eq!(decode(&[0x81, 0x00]), Ok(128));
    // 300 = 2 * 128 + 44.
    assert_eq!(decode(&[0x82, 0x2c]), Ok(300));
    // 16383 = 127 * 128 + 127, the largest two-byte value.
    assert_eq!(decode(&[0xff, 0x7f]), Ok(16383));
    // 16384 needs three bytes.
    assert_eq!(decode(&[0x81, 0x80, 0x00]), Ok(16384));
}

#[test]
fn vint_round_trip_many_values() {
    // Encode by hand (big-endian base-128, continuation bit on all but the
    // last byte) and decode back, across several byte-length boundaries.
    let samples: [usize; 12] =
        [0, 1, 127, 128, 255, 16383, 16384, 65535, 1 << 21, (1 << 21) + 5, usize::MAX - 1, usize::MAX];
    for &v in samples.iter() {
        let mut groups: Vec<u8> = Vec::new();
        let mut x = v;
        loop {
            groups.push((x % 128) as u8);
            x /= 128;
            if x == 0 {
                break;
            }
        }
        let mut bytes: Vec<u8> = Vec::new();
        for (pos, g) in groups.iter().rev().enumerate() {
            if pos + 1 < groups.len() {
                bytes.push(g | 0x80);
            } else {
                bytes.push(*g);
            }
        }
        let mut i: usize = 0;
        assert_eq!(get_vint(&bytes, &mut i), Ok(v));
        assert_eq!(i, bytes.len());
    }
}

#[test]
fn vint_leaves_position_after_the_number() {
    let bytes = [0x82u8, 0x2c, 0x07, 0x07];
    let mut i: usize = 0;
    assert_eq!(get_vint(&bytes, &mut i), Ok(300));
    assert_eq!(i, 2);
    assert_eq!(get_vint(&bytes, &mut i), Ok(7));
    assert_eq!(i, 3);
}

#[test]
fn vint_empty_buffer_fails() {
    assert_eq!(decode(&[]), Err(LoadError::TruncatedVint));
}

#[test]
fn vint_unterminated_stream_fails() {
    // Every byte keeps the continuation bit set: decoding must fail rather
    // than run on.
    assert_eq!(decode(&[0x80]), Err(LoadError::TruncatedVint));
    assert_eq!(decode(&[0x80, 0x80, 0x80]), Err(LoadError::TruncatedVint));
    assert_eq!(decode(&[0xff, 0xff, 0xff]), Err(LoadError::TruncatedVint));
}

#[test]
fn vint_start_past_end_fails() {
    let bytes = [0x00u8];
    let mut i: usize = 5;
    assert_eq!(get_vint(&bytes, &mut i), Err(LoadError::TruncatedVint));
}

#[test]
fn vint_value_too_large_for_usize_fails() {
    // Ten continuation bytes of all-ones low bits exceed 64 bits of value.
    let mut bytes = vec![0xffu8; 10];
    bytes.push(0x7f);
    assert_eq!(decode(&bytes), Err(LoadError::VintTooLarge));
}
