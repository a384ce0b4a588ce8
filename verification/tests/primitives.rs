use mp3dec::{read_bits, read_u16, read_u32, read_u64, DecodingError};

#[test]
fn test_read_bits() {
    assert_eq!(read_bits(0xFFFFFFFF00000000, 0..32), 0xFFFFFFFF_u64);
    assert_eq!(read_bits(0x00000000FFFFFFFF, 32..64), 0xFFFFFFFF_u64);
    assert_eq!(read_bits(0x0000FFFFFFFF0000, 16..48), 0xFFFFFFFF_u64);
    assert_eq!(read_bits(0x00000000FFFFFFFF, 0..32), 0x00000000_u64);
    assert_eq!(read_bits(0xFFFFFFFF00000000, 32..64), 0x00000000_u64);
    assert_eq!(read_bits(0xFFFF00000000FFFF, 16..48), 0x00000000_u64);
}

#[test]
fn test_read_bits_partial_windows() {
    // Ranges covering only set bits yield all-ones of the requested width.
    assert_eq!(read_bits(0x0000FFFFFFFF0000, 20..40), 0xFFFFF_u64);
    assert_eq!(read_bits(0xFFFFFFFF00000000, 5..6), 1_u64);
    // Ranges lying outside the set bits yield zero.
    assert_eq!(read_bits(0x0000FFFFFFFF0000, 0..16), 0_u64);
    assert_eq!(read_bits(0x0000FFFFFFFF0000, 48..64), 0_u64);
    // A range straddling the window edge is the window's bits right-justified.
    assert_eq!(read_bits(0x0000FFFFFFFF0000, 8..24), 0x00FF_u64);
}

#[test]
fn test_read_u16() {
    let mut data = b"\xAB\xCD".as_slice();
    assert_eq!(read_u16(&mut data).unwrap(), 0xABCD_u16);
    assert_eq!(data.len(), 0);
}

#[test]
fn test_read_u32() {
    let mut data = b"\x89\xAB\xCD\xEF".as_slice();
    assert_eq!(read_u32(&mut data).unwrap(), 0x89AB_CDEF_u32);
    assert_eq!(data.len(), 0);
}

#[test]
fn test_read_u64() {
    let mut data = b"\x89\xAB\xCD\xEF\x01\x23\x45\x67".as_slice();
    assert_eq!(read_u64(&mut data).unwrap(), 0x89AB_CDEF_0123_4567_u64);
    assert_eq!(data.len(), 0);
}

#[test]
fn test_read_too_short() {
    let mut data = b"\xAB".as_slice();
    assert_eq!(read_u16(&mut data), Err(DecodingError::UnexpectedEndOfStream));
    assert_eq!(data.len(), 1);

    let mut data = b"\xAB\xCD\xEF".as_slice();
    assert_eq!(read_u32(&mut data), Err(DecodingError::UnexpectedEndOfStream));
    assert_eq!(data.len(), 3);

    let mut data = b"\xAB\xCD\xEF\x01\x23\x45\x67".as_slice();
    assert_eq!(read_u64(&mut data), Err(DecodingError::UnexpectedEndOfStream));
    assert_eq!(data.len(), 7);
}
