use gdut_net::crypto::{hex_decode, hex_encode, open_blob, seal_blob, unwrap_blob, usable_entropy, wrap_blob, ENTROPY_LEN};

#[test]
fn blob_roundtrip_preserves_hex_normalization() {
    let b = wrap_blob("AaBb01Ff", &[0xde, 0xad]);
    let (e, p) = unwrap_blob(&b).unwrap();
    assert_eq!(e, "aabb01ff");
    assert_eq!(p, vec![0xde, 0xad]);
}

#[test]
fn blob_rejects_bad_hex_and_base64() {
    assert!(unwrap_blob("GDUT1:zz:x").is_none());
    assert!(unwrap_blob("GDUT1:abc").is_none());
    assert!(unwrap_blob("GDUT1:aa:!!!").is_none());
    assert!(unwrap_blob("GDUT1:aa:").is_none());
}

#[test]
fn blob_text_is_prefix_entropy_and_standard_base64() {
    assert_eq!(wrap_blob("00ff", b"hi"), "GDUT1:00ff:aGk=");
    assert!(unwrap_blob("GDUT2:00:aGk=").is_none());
    assert!(unwrap_blob("GDUT1::aGk=").is_none());
    assert!(unwrap_blob("GDUT1:abc:aGk=").is_none());
    assert_eq!(
        unwrap_blob("GDUT1:00:aGk="),
        Some(("00".to_string(), b"hi".to_vec()))
    );
}

#[test]
fn hex_roundtrip() {
    assert_eq!(hex_encode(&[0x00, 0xab, 0x10]), "00ab10");
    assert_eq!(hex_decode("00ab10").unwrap(), vec![0x00, 0xab, 0x10]);
    assert_eq!(hex_decode("00AB").unwrap(), vec![0x00, 0xab]);
    assert!(hex_decode("0g").is_err());
    assert_eq!(hex_decode("abc").unwrap(), vec![0xab]);
}

#[test]
fn sealed_blob_opens_to_its_entropy_and_bytes() {
    let entropy: Vec<u8> = (0..32u8).map(|i| i.wrapping_mul(37)).collect();
    let blob = seal_blob(&entropy, &[1, 2, 3]);
    assert!(blob.starts_with("GDUT1:00254a6f"));
    assert_eq!(open_blob(&blob), Some((entropy, vec![1, 2, 3])));
    assert_eq!(open_blob("GDUT1:AB:AQID"), Some((vec![0xab], vec![1, 2, 3])));
    assert_eq!(open_blob("nope"), None);
}

#[test]
fn stored_entropy_is_used_only_at_full_length() {
    assert_eq!(ENTROPY_LEN, 32);
    assert_eq!(usable_entropy(Some(vec![7; 32])), Some(vec![7; 32]));
    assert_eq!(usable_entropy(Some(vec![7; 31])), None);
    assert_eq!(usable_entropy(None), None);
}
