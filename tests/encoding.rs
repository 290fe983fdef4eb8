use kdmapi::{encode_narrow, encode_path, encode_wide, EncodedPath, Platform};

#[test]
fn wide_path_is_utf16_with_single_terminator() {
    let path = "C:\\sf\\a.sf2";
    let units = encode_wide(path);
    let expected: Vec<u16> = vec![
        0x43, 0x3A, 0x5C, 0x73, 0x66, 0x5C, 0x61, 0x2E, 0x73, 0x66, 0x32, 0,
    ];
    assert_eq!(units, expected);
    assert_eq!(units.iter().filter(|u| **u == 0).count(), 1);
    let text: Vec<u16> = path.encode_utf16().collect();
    assert_eq!(&units[..units.len() - 1], &text[..]);
}

#[test]
fn wide_path_uses_surrogate_pairs() {
    assert_eq!(encode_wide("a\u{1D11E}é"), vec![0x61, 0xD834, 0xDD1E, 0xE9, 0]);
}

#[test]
fn wide_empty_path_is_terminator_only() {
    assert_eq!(encode_wide(""), vec![0u16]);
}

#[test]
fn narrow_path_is_utf8_with_terminator() {
    assert_eq!(encode_narrow("a.sf2"), b"a.sf2\0".to_vec());
    assert_eq!(encode_narrow("é"), vec![0xC3, 0xA9, 0]);
    assert_eq!(encode_narrow(""), vec![0u8]);
}

#[test]
fn path_encoding_follows_platform() {
    assert_eq!(
        encode_path(Platform::Windows, "ab"),
        EncodedPath::Wide(vec![0x61, 0x62, 0])
    );
    assert_eq!(
        encode_path(Platform::Linux, "ab"),
        EncodedPath::Narrow(vec![0x61, 0x62, 0])
    );
    assert_eq!(
        encode_path(Platform::MacOs, "ab"),
        EncodedPath::Narrow(vec![0x61, 0x62, 0])
    );
}
