use gdut_net::payload::{check_entry, pack, sort_by_name, unpack, validate_name, Entry, PayloadError, FOOTER_LEN};

fn entries() -> Vec<(String, Vec<u8>)> {
    vec![
        ("gdut-net.exe".to_string(), vec![1, 2, 3, 4]),
        ("说明.txt".to_string(), b"hello".to_vec()),
        ("empty.bat".to_string(), vec![]),
    ]
}

#[test]
fn pack_then_unpack_gives_the_entries_back() {
    let setup = b"MZ setup program".to_vec();
    let packed = pack(&setup, &entries()).unwrap();
    assert!(packed.starts_with(&setup));
    let got = unpack(&packed).unwrap().unwrap();
    let want: Vec<Entry> = entries()
        .into_iter()
        .map(|(name, data)| Entry { name, data })
        .collect();
    assert_eq!(got, want);
}

#[test]
fn footer_layout() {
    let packed = pack(b"S", &[("a".to_string(), vec![9])]).unwrap();
    let n = packed.len();
    let footer = &packed[n - FOOTER_LEN..];
    assert_eq!(&footer[..8], b"GDUTPAK1");
    assert_eq!(&footer[8..12], &[1, 0, 0, 0]);
    assert_eq!(&footer[12..16], &[1, 0, 0, 0]);
    // Setup (1 byte) + data (1 byte): the TOC starts at 2.
    assert_eq!(&footer[16..24], &[2, 0, 0, 0, 0, 0, 0, 0]);
    // TOC entry: name length 1, "a", offset 1, length 1, SHA-256.
    assert_eq!(&packed[2..5], &[1, 0, b'a']);
    assert_eq!(&packed[5..13], &[1, 0, 0, 0, 0, 0, 0, 0]);
    assert_eq!(&packed[13..21], &[1, 0, 0, 0, 0, 0, 0, 0]);
    assert_eq!(n, 2 + 2 + 1 + 8 + 8 + 32 + FOOTER_LEN);
}

#[test]
fn checksum_is_sha256_of_the_data() {
    let packed = pack(b"", &[("x".to_string(), b"abc".to_vec())]).unwrap();
    let digest = &packed[3 + 3 + 16..3 + 3 + 16 + 32];
    assert_eq!(
        digest,
        &[
            0xba, 0x78, 0x16, 0xbf, 0x8f, 0x01, 0xcf, 0xea, 0x41, 0x41, 0x40, 0xde, 0x5d, 0xae,
            0x22, 0x23, 0xb0, 0x03, 0x61, 0xa3, 0x96, 0x17, 0x7a, 0x9c, 0xb4, 0x10, 0xff, 0x61,
            0xf2, 0x00, 0x15, 0xad
        ]
    );
}

#[test]
fn names_are_whitelisted() {
    assert_eq!(validate_name(""), Err(PayloadError::EmptyName));
    assert!(matches!(validate_name("a/b"), Err(PayloadError::PathInName(_))));
    assert!(matches!(validate_name("a\\b"), Err(PayloadError::PathInName(_))));
    assert!(matches!(validate_name("..x"), Err(PayloadError::PathInName(_))));
    assert!(matches!(validate_name("c:x"), Err(PayloadError::PathInName(_))));
    assert!(matches!(validate_name("a\u{7}"), Err(PayloadError::ControlInName(_))));
    assert_eq!(validate_name("a\u{85}"), Ok(()));
    assert!(matches!(validate_name("a\u{7f}"), Err(PayloadError::ControlInName(_))));
    assert_eq!(validate_name("ok.name.txt"), Ok(()));
}

#[test]
fn pack_refuses_bad_and_duplicate_names() {
    let dup = vec![("a".to_string(), vec![]), ("a".to_string(), vec![1])];
    assert_eq!(pack(b"", &dup), Err(PayloadError::DuplicateName("a".to_string())));
    let bad = vec![("ok".to_string(), vec![]), ("../x".to_string(), vec![])];
    assert!(matches!(pack(b"", &bad), Err(PayloadError::PathInName(_))));
    let long = vec![("n".repeat(70_000), vec![])];
    assert_eq!(pack(b"", &long), Err(PayloadError::NameTooLong));
}

#[test]
fn unpack_without_payload_is_none() {
    assert_eq!(unpack(b"short"), Ok(None));
    assert_eq!(unpack(&[0u8; 64]), Ok(None));
}

#[test]
fn unpack_refuses_broken_payloads() {
    let packed = pack(b"setup", &entries()).unwrap();
    let n = packed.len();
    let mut v = packed.clone();
    v[n - 16] = 2;
    assert_eq!(unpack(&v), Err(PayloadError::UnsupportedVersion(2)));
    let mut v = packed.clone();
    v[n - 8] = 0xff;
    assert!(matches!(unpack(&v), Err(PayloadError::TocOutOfRange { .. })));
    let mut v = packed.clone();
    v[5] ^= 0xff;
    assert!(matches!(unpack(&v), Err(PayloadError::ChecksumMismatch(_))));
    let mut v = packed.clone();
    v[n - 12] = 4;
    assert!(matches!(
        unpack(&v),
        Err(PayloadError::TocTruncated) | Err(PayloadError::EntryTruncated)
    ));
    let mut v = packed;
    v[n - 12] = 2;
    assert_eq!(unpack(&v), Err(PayloadError::TrailingBytes));
}

#[test]
fn entries_are_ordered_by_name() {
    let e = |n: &str| Entry { name: n.to_string(), data: n.as_bytes().to_vec() };
    let sorted = sort_by_name(vec![e("b.txt"), e("a"), e("ab"), e("B"), e("é"), e("a")]);
    let names: Vec<&str> = sorted.iter().map(|x| x.name.as_str()).collect();
    assert_eq!(names, vec!["B", "a", "a", "ab", "b.txt", "é"]);
    assert!(sort_by_name(Vec::new()).is_empty());
}

#[test]
fn entry_checksums_are_compared() {
    let digest = [7u8; 32];
    let e = check_entry("a".to_string(), b"xy", &digest, &[7u8; 32]).unwrap();
    assert_eq!(e, Entry { name: "a".to_string(), data: b"xy".to_vec() });
    assert_eq!(
        check_entry("a".to_string(), b"xy", &digest, &[8u8; 32]),
        Err(PayloadError::ChecksumMismatch("a".to_string()))
    );
}
