use nrf7002::codec::{read_i32, read_u16, read_u32, read_u64, Writer};

#[test]
fn fixed_u32_writes_exact_values_and_zero_padding() {
    let mut bytes = [0xaa; 16];
    let mut writer = Writer::new(&mut bytes);
    writer.fixed_u32(&[0x0102_0304], 3).unwrap();
    assert_eq!(writer.len(), 12);
    assert_eq!(&bytes[..4], &[4, 3, 2, 1]);
    assert_eq!(&bytes[4..12], &[0; 8]);
    assert_eq!(&bytes[12..], &[0xaa; 4]);
}

#[test]
fn integer_readers_honor_nonzero_offsets_and_little_endian_order() {
    let bytes = [0xaa, 1, 2, 3, 4, 5, 6, 7, 8, 0xbb];
    assert_eq!(read_u16(&bytes, 1), 0x0201);
    assert_eq!(read_u32(&bytes, 1), 0x0403_0201);
    assert_eq!(read_i32(&bytes, 1), 0x0403_0201);
    assert_eq!(read_u64(&bytes, 1), 0x0807_0605_0403_0201);
}
