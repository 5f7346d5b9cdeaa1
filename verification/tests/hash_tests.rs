use k_shrink::hash::hashes_equal;
use k_shrink::image_hash;

#[test]
fn same_input_same_hash() {
    let data = b"some image bytes";
    assert_eq!(image_hash(data), image_hash(data));
}

#[test]
fn different_input_different_hash() {
    assert_ne!(image_hash(b"abc"), image_hash(b"xyz"));
}

#[test]
fn empty_input_no_panic() {
    let h = image_hash(b"");
    assert_eq!(h.len(), 32);
}

#[test]
fn hash_is_sha256() {
    let expected: [u8; 32] = [
        0xba, 0x78, 0x16, 0xbf, 0x8f, 0x01, 0xcf, 0xea, 0x41, 0x41, 0x40, 0xde, 0x5d, 0xae, 0x22,
        0x23, 0xb0, 0x03, 0x61, 0xa3, 0x96, 0x17, 0x7a, 0x9c, 0xb4, 0x10, 0xff, 0x61, 0xf2, 0x00,
        0x15, 0xad,
    ];
    assert_eq!(image_hash(b"abc"), expected);
}

#[test]
fn hash_comparison() {
    let a = image_hash(b"abc");
    let mut b = a;
    assert!(hashes_equal(&a, &b));
    b[31] ^= 1;
    assert!(!hashes_equal(&a, &b));
}
