use hid_typer::keycode::encode;
use hid_typer::keycode::LEFT_SHIFT;

#[test]
fn lower_case_letters_closed_form() {
    for c in b'a'..=b'z' {
        assert_eq!(encode(c), Some((0, 0x04 + (c - b'a'))));
    }
}

#[test]
fn upper_case_letters_closed_form() {
    for c in b'A'..=b'Z' {
        assert_eq!(encode(c), Some((LEFT_SHIFT, 0x04 + (c - b'A'))));
    }
}

#[test]
fn digits_closed_form() {
    for c in b'1'..=b'9' {
        assert_eq!(encode(c), Some((0, 0x1E + (c - b'1'))));
    }
    assert_eq!(encode(b'0'), Some((0, 0x27)));
}

#[test]
fn punctuation_and_whitespace() {
    assert_eq!(encode(b'.'), Some((0, 0x37)));
    assert_eq!(encode(b'!'), Some((LEFT_SHIFT, 0x1E)));
    assert_eq!(encode(b'\n'), Some((0, 0x28)));
    assert_eq!(encode(b' '), Some((0, 0x2C)));
}

#[test]
fn unsupported_characters_have_no_mapping() {
    for c in [b'@', b'~', b'-', b'_', b',', b'?', b'\t', b'\r', 0u8, 0x7F, 0x80, 0xFF] {
        assert_eq!(encode(c), None);
    }
}
