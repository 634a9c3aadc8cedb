use oro_link::identity::{exteth_mac_from_hash, get_exteth_mac, unique_id_sha256};

fn hex(bytes: &[u8]) -> String {
    bytes.iter().map(|b| format!("{b:02x}")).collect()
}

#[test]
fn digest_of_zero_identifier() {
    // SHA-256 of twelve zero bytes.
    assert_eq!(
        hex(&unique_id_sha256((0, 0, 0))),
        "15ec7bf0b50732b49f8228e07d24365338f9e3ab994b00af08e5a3bffe55fd8b"
    );
}

#[test]
fn digest_depends_on_word_order() {
    assert_ne!(unique_id_sha256((1, 2, 3)), unique_id_sha256((3, 2, 1)));
}

#[test]
fn mac_from_hash() {
    let mut hash = [0u8; 32];
    hash[29] = 0xAA;
    hash[30] = 0xBB;
    hash[31] = 0xCC;
    assert_eq!(exteth_mac_from_hash(&hash), [b'.', b'o', b'O', 0xAA, 0xBB, 0xCC]);
}

#[test]
fn mac_of_identifier() {
    let hash = unique_id_sha256((0x1234, 0x5678, 0x9ABC));
    let mac = get_exteth_mac((0x1234, 0x5678, 0x9ABC));
    assert_eq!(&mac[..3], b".oO");
    assert_eq!(&mac[3..], &hash[29..]);
    // The zero identifier's digest ends in fe 55 fd 8b.
    assert_eq!(get_exteth_mac((0, 0, 0)), [0x2E, 0x6F, 0x4F, 0x55, 0xFD, 0x8B]);
}
