use packet_codec::wire::{push_i32_le, read_i32_le};

fn written(v: i32) -> Vec<u8> {
    let mut out = Vec::new();
    push_i32_le(&mut out, v);
    out
}

#[test]
fn push_is_little_endian() {
    assert_eq!(written(1), vec![1, 0, 0, 0]);
    assert_eq!(written(0x0C), vec![0x0C, 0, 0, 0]);
    assert_eq!(written(0x01020304), vec![4, 3, 2, 1]);
    assert_eq!(written(-1), vec![0xFF, 0xFF, 0xFF, 0xFF]);
}

#[test]
fn read_inverts_push() {
    for v in [0, 1, -1, 1000, -1000, i32::MAX, i32::MIN] {
        let bytes = written(v);
        assert_eq!(read_i32_le(&bytes, 0), v);
    }
}

#[test]
fn read_at_offset() {
    let buffer = vec![0xAA, 0xBB, 0xE8, 0x03, 0, 0, 0xCC];
    assert_eq!(read_i32_le(&buffer, 2), 1000);
}
