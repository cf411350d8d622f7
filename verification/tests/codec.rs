use ebc_hub::ebc::codec::{decode_base240, encode_base240, xor_checksum};

#[test]
fn encode_base240_splits_into_digits() {
    assert_eq!(encode_base240(0), (0, 0));
    assert_eq!(encode_base240(239), (0, 239));
    assert_eq!(encode_base240(240), (1, 0));
    assert_eq!(encode_base240(2500), (10, 100));
    assert_eq!(encode_base240(57839), (240, 239));
}

#[test]
fn decode_base240_combines_digits() {
    assert_eq!(decode_base240(0, 0), 0);
    assert_eq!(decode_base240(10, 100), 2500);
    assert_eq!(decode_base240(255, 255), 61455);
}

#[test]
fn base240_roundtrip_avoids_markers() {
    for v in [0u16, 1, 239, 240, 999, 3300, 20000, 57839] {
        let (h, l) = encode_base240(v);
        assert_eq!(decode_base240(h, l), v);
        assert!(h != 0xfa && h != 0xf8 && l != 0xfa && l != 0xf8);
    }
}

#[test]
fn xor_checksum_folds_bytes() {
    assert_eq!(xor_checksum(&[]), 0);
    assert_eq!(xor_checksum(&[0x05, 0, 0, 0, 0, 0, 0]), 0x05);
    assert_eq!(xor_checksum(&[0x01, 0x02, 0x04]), 0x07);
    assert_eq!(xor_checksum(&[0xff, 0xff]), 0);
}
