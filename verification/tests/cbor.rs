use oro_link::cbor::{read_head, write_head};

#[test]
fn shortest_heads() {
    let cases: [(u8, u64, &[u8]); 6] = [
        (0, 23, &[0x17]),
        (0, 24, &[0x18, 24]),
        (4, 3, &[0x83]),
        (0, 300, &[0x19, 0x01, 0x2C]),
        (3, 70000, &[0x7A, 0x00, 0x01, 0x11, 0x70]),
        (0, u64::MAX, &[0x1B, 0xFF, 0xFF, 0xFF, 0xFF, 0xFF, 0xFF, 0xFF, 0xFF]),
    ];
    for (major, v, bytes) in cases {
        let mut out = Vec::new();
        write_head(&mut out, major, v);
        assert_eq!(out, bytes);
        assert_eq!(read_head(&out, 0), Some((major, v, bytes.len())));
    }
}

#[test]
fn any_width_is_read() {
    assert_eq!(read_head(&[0x19, 0x00, 0x05], 0), Some((0, 5, 3)));
    assert_eq!(read_head(&[0x1C], 0), None);
    assert_eq!(read_head(&[0x19, 0x00], 0), None);
    assert_eq!(read_head(&[], 0), None);
}
