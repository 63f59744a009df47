use comport::path::{device_path, push_utf16};

#[test]
fn device_path_of_com_port() {
    assert_eq!(
        device_path("COM1"),
        vec![0x5Cu16, 0x5C, 0x2E, 0x5C, 0x43, 0x4F, 0x4D, 0x31, 0]
    );
}

#[test]
fn device_path_of_empty_name() {
    assert_eq!(device_path(""), vec![0x5Cu16, 0x5C, 0x2E, 0x5C, 0]);
}

#[test]
fn device_path_prefixes_unconditionally() {
    let path = device_path("\\\\.\\COM12");
    let mut expected: Vec<u16> = "\\\\.\\\\\\.\\COM12".encode_utf16().collect();
    expected.push(0);
    assert_eq!(path, expected);
}

#[test]
fn device_path_matches_std_encoding() {
    for name in ["COM255", "ü", "€uro", "日本語", "a😀b", "\u{FFFF}\u{10000}\u{10FFFF}\u{D7FF}\u{E000}"] {
        let mut expected: Vec<u16> = "\\\\.\\".encode_utf16().collect();
        expected.extend(name.encode_utf16());
        expected.push(0);
        assert_eq!(device_path(name), expected);
    }
}

#[test]
fn surrogate_pairs() {
    let mut units: Vec<u16> = vec![7];
    push_utf16(&mut units, 'A');
    push_utf16(&mut units, '\u{10000}');
    push_utf16(&mut units, '\u{1F600}');
    push_utf16(&mut units, '\u{10FFFF}');
    push_utf16(&mut units, '\u{FFFF}');
    assert_eq!(
        units,
        vec![7u16, 0x41, 0xD800, 0xDC00, 0xD83D, 0xDE00, 0xDBFF, 0xDFFF, 0xFFFF]
    );
}
