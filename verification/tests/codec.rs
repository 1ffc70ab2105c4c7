use mach_dump::codec::{read_i32, read_u32, read_u64};
use mach_dump::error::TruncatedInput;

#[test]
fn u32_is_little_endian() {
    let bytes = [0x78u8, 0x56, 0x34, 0x12];
    assert_eq!(read_u32(&bytes, 0), Ok(0x1234_5678));
}

#[test]
fn u32_reads_at_the_offset() {
    let bytes = [0xaau8, 0xbb, 0x01, 0x00, 0x00, 0x80, 0xcc];
    assert_eq!(read_u32(&bytes, 2), Ok(0x8000_0001));
    assert_eq!(read_u32(&bytes, 3), Ok(0xcc80_0000));
}

#[test]
fn u32_extremes() {
    assert_eq!(read_u32(&[0u8; 4], 0), Ok(0));
    assert_eq!(read_u32(&[0xffu8; 4], 0), Ok(u32::MAX));
}

#[test]
fn u32_agrees_with_std() {
    for value in [0u32, 1, 0xff, 0x100, 0xfeed_facf, 0xcffa_edfe, 0x8000_0000, u32::MAX] {
        assert_eq!(read_u32(&value.to_le_bytes(), 0), Ok(value));
    }
}

#[test]
fn u32_truncated() {
    let bytes = [1u8, 2, 3];
    assert_eq!(read_u32(&bytes, 0), Err(TruncatedInput { offset: 0, width: 4 }));
    let bytes = [1u8, 2, 3, 4, 5];
    assert_eq!(read_u32(&bytes, 1), Ok(0x0504_0302));
    assert_eq!(read_u32(&bytes, 2), Err(TruncatedInput { offset: 2, width: 4 }));
    assert_eq!(read_u32(&bytes, 5), Err(TruncatedInput { offset: 5, width: 4 }));
    assert_eq!(read_u32(&[], 0), Err(TruncatedInput { offset: 0, width: 4 }));
}

#[test]
fn u32_offset_near_the_end_of_usize() {
    let bytes = [1u8, 2, 3, 4];
    assert_eq!(
        read_u32(&bytes, usize::MAX),
        Err(TruncatedInput { offset: usize::MAX, width: 4 })
    );
    assert_eq!(
        read_u32(&bytes, usize::MAX - 3),
        Err(TruncatedInput { offset: usize::MAX - 3, width: 4 })
    );
}

#[test]
fn u64_is_little_endian() {
    let bytes = [0xefu8, 0xcd, 0xab, 0x89, 0x67, 0x45, 0x23, 0x01];
    assert_eq!(read_u64(&bytes, 0), Ok(0x0123_4567_89ab_cdef));
}

#[test]
fn u64_extremes() {
    assert_eq!(read_u64(&[0u8; 8], 0), Ok(0));
    assert_eq!(read_u64(&[0xffu8; 8], 0), Ok(u64::MAX));
    assert_eq!(read_u64(&[0, 0, 0, 0, 0, 0, 0, 0x80], 0), Ok(1u64 << 63));
    assert_eq!(read_u64(&[0, 0, 0, 0, 1, 0, 0, 0], 0), Ok(1u64 << 32));
}

#[test]
fn u64_agrees_with_std() {
    for value in [0u64, 1, 0x1000, 0xffff_ffff, 0x1_0000_0000, 0xdead_beef_cafe_f00d, u64::MAX] {
        let mut bytes = vec![0x5au8; 3];
        bytes.extend_from_slice(&value.to_le_bytes());
        assert_eq!(read_u64(&bytes, 3), Ok(value));
    }
}

#[test]
fn u64_truncated() {
    let bytes = [0u8; 9];
    assert_eq!(read_u64(&bytes, 1), Ok(0));
    assert_eq!(read_u64(&bytes, 2), Err(TruncatedInput { offset: 2, width: 8 }));
    assert_eq!(read_u64(&bytes[..7], 0), Err(TruncatedInput { offset: 0, width: 8 }));
    assert_eq!(
        read_u64(&bytes, usize::MAX),
        Err(TruncatedInput { offset: usize::MAX, width: 8 })
    );
}

#[test]
fn i32_is_twos_complement() {
    assert_eq!(read_i32(&[0xffu8; 4], 0), Ok(-1));
    assert_eq!(read_i32(&[0, 0, 0, 0x80], 0), Ok(i32::MIN));
    assert_eq!(read_i32(&[0xff, 0xff, 0xff, 0x7f], 0), Ok(i32::MAX));
    assert_eq!(read_i32(&[7, 0, 0, 0], 0), Ok(7));
    assert_eq!(read_i32(&[0xfe, 0xff, 0xff, 0xff], 0), Ok(-2));
}

#[test]
fn i32_agrees_with_std() {
    for value in [0i32, 1, -1, 3, 7, -12345, 0x1234_5678, i32::MIN, i32::MAX] {
        assert_eq!(read_i32(&value.to_le_bytes(), 0), Ok(value));
    }
}

#[test]
fn i32_truncated() {
    assert_eq!(read_i32(&[1u8, 2, 3], 0), Err(TruncatedInput { offset: 0, width: 4 }));
    assert_eq!(read_i32(&[1u8, 2, 3, 4], 1), Err(TruncatedInput { offset: 1, width: 4 }));
}
