use platform_napi::version::{
    chars_of, detect_os_version, is_legacy_desktop, is_whitespace, parse_os_version, parse_u64,
    split_terminator_dots, trim_bounds, OsVersion,
};

fn v(major: u64, minor: u64, patch: u64) -> Option<OsVersion> {
    Some(OsVersion { major, minor, patch })
}

/// The parse as the desktop code writes it with the standard library, with
/// `None` where it would panic.
fn reference(ver: &str) -> Option<OsVersion> {
    let mut iter = ver.trim().split_terminator('.').fuse();
    let major: u64 = iter.next().and_then(|s| s.parse().ok())?;
    let minor: u64 = iter.next().unwrap_or("0").parse().ok()?;
    let patch: u64 = iter.next().unwrap_or("0").parse().ok()?;
    Some(OsVersion { major, minor, patch })
}

#[test]
fn parses_windows_versions() {
    assert_eq!(parse_os_version("6.1.7601"), v(6, 1, 7601));
    assert_eq!(parse_os_version("10.0.19045"), v(10, 0, 19045));
    assert_eq!(parse_os_version("6"), v(6, 0, 0));
    assert_eq!(parse_os_version("6."), v(6, 0, 0));
    assert_eq!(parse_os_version("6.1."), v(6, 1, 0));
    assert_eq!(parse_os_version("  6.1  "), v(6, 1, 0));
    assert_eq!(parse_os_version("\u{3000}6.1\u{A0}"), v(6, 1, 0));
    assert_eq!(parse_os_version("6.1.2.3"), v(6, 1, 2));
    assert_eq!(parse_os_version("+6.1"), v(6, 1, 0));
    assert_eq!(parse_os_version("18446744073709551615"), v(u64::MAX, 0, 0));
}

#[test]
fn rejects_what_is_no_version() {
    for s in ["", "   ", ".", "Unknown", "Rolling Release", "6..1", "-6", "6.x", "+", "6.+",
        "18446744073709551616", "6. 1", "6.1.7601a"] {
        assert_eq!(parse_os_version(s), None, "{:?}", s);
    }
}

#[test]
fn parse_agrees_with_the_standard_library() {
    let samples = [
        "6.1.7601", "10.0.22631", "", " ", "1", "1.", "1.2", "1.2.", "1.2.3", "1.2.3.", "1.2.3.  ",
        "   1.2.3.", "1.2.3.4", "1.2.3.4.5", "a.b", "1..", "..", "007.010.0", "+1.+2.+3",
        "99999999999999999999.1", "1.99999999999999999999", "\t12.0\n", "12\u{2003}", "٣.1",
        "1.2.3\u{85}", "\u{FEFF}1.2",
    ];
    for s in samples {
        assert_eq!(parse_os_version(s), reference(s), "{:?}", s);
    }
}

#[test]
fn surrounding_whitespace_is_ignored() {
    for s in ["6.1", "", "x", "1.2.3."] {
        for ws in [" ", "\t", "\u{2028}", "\u{3000}"] {
            let front = format!("{}{}", ws, s);
            let back = format!("{}{}", s, ws);
            assert_eq!(parse_os_version(&front), parse_os_version(s));
            assert_eq!(parse_os_version(&back), parse_os_version(s));
        }
    }
}

#[test]
fn whitespace_is_the_unicode_white_space_set() {
    for c in ['\u{0}', 'a', '.', '\u{FEFF}', '\u{200B}', '\u{1FFF}', '\u{2000}', '\u{200A}'] {
        assert_eq!(is_whitespace(c), c.is_whitespace(), "{:?}", c);
    }
    for code in 0u32..0x3100 {
        if let Some(c) = char::from_u32(code) {
            assert_eq!(is_whitespace(c), c.is_whitespace(), "{:#x}", code);
        }
    }
}

#[test]
fn helpers_split_and_parse() {
    let chars = chars_of(" 1.22. ");
    assert_eq!(chars.len(), 7);
    let (a, b) = trim_bounds(&chars);
    assert_eq!((a, b), (1, 6));
    let pieces = split_terminator_dots(&chars, a, b);
    assert_eq!(pieces, vec![(1, 2), (3, 5)]);
    assert_eq!(parse_u64(&chars, 3, 5), Some(22));
    assert_eq!(parse_u64(&chars, 3, 3), None);
    let dots = chars_of("..");
    assert_eq!(split_terminator_dots(&dots, 0, 2), vec![(0, 0), (1, 1)]);
    assert_eq!(split_terminator_dots(&dots, 0, 0), Vec::<(usize, usize)>::new());
}

#[test]
fn windows_7_is_the_legacy_desktop() {
    assert!(is_legacy_desktop(OsVersion { major: 6, minor: 1, patch: 7601 }));
    assert!(!is_legacy_desktop(OsVersion { major: 6, minor: 2, patch: 9200 }));
    assert!(!is_legacy_desktop(OsVersion { major: 10, minor: 0, patch: 0 }));
    assert!(!is_legacy_desktop(OsVersion { major: 5, minor: 1, patch: 0 }));
}

#[test]
fn detected_version_is_parsed_from_its_text() {
    let (text, version) = detect_os_version();
    assert_eq!(version, parse_os_version(&text));
    assert_eq!(text, os_info::get().version().to_string());
}
