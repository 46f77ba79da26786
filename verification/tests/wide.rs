use platform_napi::wide::{decode_wide, encode_wide};

fn reference(s: &str) -> Vec<u16> {
    s.encode_utf16().chain(std::iter::once(0)).collect()
}

#[test]
fn encode_wide_is_utf16_with_a_terminator() {
    assert_eq!(encode_wide("Progman"), vec![80, 114, 111, 103, 109, 97, 110, 0]);
    assert_eq!(encode_wide(""), vec![0]);
    assert_eq!(encode_wide("\u{1D11E}"), vec![0xD834, 0xDD1E, 0]);
    for s in ["WorkerW", "héllo", "日本語", "a\u{10FFFF}b", "\u{FFFF}", "\u{10000}"] {
        assert_eq!(encode_wide(s), reference(s), "{}", s);
    }
}

#[test]
fn decode_wide_stops_at_the_first_nul() {
    assert_eq!(decode_wide(&[65, 66, 0, 67]), vec![65, 66]);
    assert_eq!(decode_wide(&[65, 66]), vec![65, 66]);
    assert_eq!(decode_wide(&[0, 65]), Vec::<u16>::new());
    assert_eq!(decode_wide(&[]), Vec::<u16>::new());
}

#[test]
fn decode_after_encode_gives_the_code_units_back() {
    for s in ["Program Manager", "", "\u{1D11E}x", "SHELLDLL_DefView"] {
        let expected: Vec<u16> = s.encode_utf16().collect();
        assert_eq!(decode_wide(&encode_wide(s)), expected);
    }
}
