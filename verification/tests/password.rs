use akispace::password::{
    password_from_plain_bytes, password_from_utf16z, password_plain_bytes, password_to_utf16z,
    utf16_decode, utf16_from_le_bytes, utf16_le_bytes,
};

#[test]
fn password_units_end_with_nul() {
    assert_eq!(password_to_utf16z("a€😀"), vec![0x61, 0x20AC, 0xD83D, 0xDE00, 0]);
    assert_eq!(password_to_utf16z(""), vec![0]);
    let expected: Vec<u16> = "pässwörd".encode_utf16().chain(Some(0)).collect();
    assert_eq!(password_to_utf16z("pässwörd"), expected);
}

#[test]
fn password_units_read_back() {
    for p in ["", "secret", "a€😀", "密码123", "ends with nul\0"] {
        assert_eq!(password_from_utf16z(&password_to_utf16z(p)), p);
        assert_eq!(password_from_plain_bytes(&password_plain_bytes(p)), p);
    }
    assert_eq!(password_from_utf16z(&[0x61, 0x62]), "ab");
    assert_eq!(password_from_utf16z(&[0x61, 0, 0]), "a\0");
}

#[test]
fn lossy_decoding_matches_std() {
    let cases: [&[u16]; 5] = [
        &[0xD83D, 0xDE00],
        &[0xD83D, 0x61],
        &[0xDE00, 0x62],
        &[0x61, 0xD800],
        &[0xD800, 0xD800, 0xDC00],
    ];
    for units in cases {
        assert_eq!(utf16_decode(units), String::from_utf16_lossy(units));
    }
}

#[test]
fn le_bytes_round_trip() {
    assert_eq!(utf16_le_bytes(&[0x1234, 0x00FF]), vec![0x34, 0x12, 0xFF, 0x00]);
    assert_eq!(utf16_from_le_bytes(&[0x34, 0x12, 0xFF, 0x00, 0x7]), vec![0x1234, 0x00FF]);
    assert_eq!(password_plain_bytes("a"), vec![0x61, 0, 0, 0]);
}
