use embclox::bytes::{le16_bytes, le32_bytes, read_le32, write_bytes, write_words};

#[test]
fn words_least_significant_first() {
    assert_eq!(le32_bytes(0x1234_5678), [0x78, 0x56, 0x34, 0x12]);
    assert_eq!(le16_bytes(0x1234), [0x34, 0x12]);
}

#[test]
fn words_read_back() {
    for x in [0u32, 1, 0x80, 0x1234_5678, u32::MAX] {
        assert_eq!(read_le32(&le32_bytes(x), 0), x);
    }
    let mut buf = [0xAAu8; 14];
    write_words(&mut buf, &[1, 0x0102_0304, u32::MAX]);
    assert_eq!(read_le32(&buf, 0), 1);
    assert_eq!(read_le32(&buf, 4), 0x0102_0304);
    assert_eq!(read_le32(&buf, 8), u32::MAX);
    assert_eq!(&buf[12..], &[0xAA, 0xAA]);
}

#[test]
fn bytes_are_written_in_place() {
    let mut buf = [0u8; 6];
    write_bytes(&mut buf, 2, &[7, 8]);
    assert_eq!(buf, [0, 0, 7, 8, 0, 0]);
    write_bytes(&mut buf, 6, &[]);
    assert_eq!(buf, [0, 0, 7, 8, 0, 0]);
}
