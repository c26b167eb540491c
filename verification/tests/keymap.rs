use mochi_drivers::keymap::{ascii_key_strokes, ascii_to_set1, SCANCODE_LEFT_SHIFT};

#[test]
fn lower_case_letters_use_their_key_without_shift() {
    assert_eq!(ascii_to_set1(b'a'), Some((0x1e, false)));
    assert_eq!(ascii_to_set1(b'q'), Some((0x10, false)));
    assert_eq!(ascii_to_set1(b'z'), Some((0x2c, false)));
}

#[test]
fn upper_case_letters_add_shift() {
    for c in b'a'..=b'z' {
        let (code, shift) = ascii_to_set1(c).unwrap();
        assert!(!shift);
        assert_eq!(ascii_to_set1(c - 0x20), Some((code, true)));
    }
}

#[test]
fn shifted_symbols_share_the_key_of_their_base() {
    let pairs = [
        (b'!', b'1'), (b'@', b'2'), (b'#', b'3'), (b'$', b'4'), (b'%', b'5'), (b'^', b'6'),
        (b'&', b'7'), (b'*', b'8'), (b'(', b'9'), (b')', b'0'), (b'_', b'-'), (b'+', b'='),
        (b'{', b'['), (b'}', b']'), (b':', b';'), (b'"', b'\''), (b'~', b'`'), (b'|', b'\\'),
        (b'<', b','), (b'>', b'.'), (b'?', b'/'),
    ];
    for (shifted, base) in pairs {
        let (code, shift) = ascii_to_set1(base).unwrap();
        assert!(!shift);
        assert_eq!(ascii_to_set1(shifted), Some((code, true)));
    }
}

#[test]
fn control_characters_map_to_editing_keys() {
    assert_eq!(ascii_to_set1(b'\r'), Some((0x1c, false)));
    assert_eq!(ascii_to_set1(b'\n'), Some((0x1c, false)));
    assert_eq!(ascii_to_set1(0x08), Some((0x0e, false)));
    assert_eq!(ascii_to_set1(0x7f), Some((0x0e, false)));
    assert_eq!(ascii_to_set1(b'\t'), Some((0x0f, false)));
    assert_eq!(ascii_to_set1(b' '), Some((0x39, false)));
}

#[test]
fn untypable_bytes_have_no_key() {
    assert_eq!(ascii_to_set1(0x00), None);
    assert_eq!(ascii_to_set1(0x1b), None);
    assert_eq!(ascii_to_set1(0x80), None);
    assert_eq!(ascii_to_set1(0xff), None);
}

#[test]
fn every_key_code_is_a_make_code() {
    for b in 0u8..=255 {
        if let Some((code, _)) = ascii_to_set1(b) {
            assert!(code != 0 && code < 0x80);
        }
    }
}

#[test]
fn strokes_press_and_release_in_reverse_order() {
    assert_eq!(ascii_key_strokes(b'a'), vec![0x1e, 0x9e]);
    assert_eq!(
        ascii_key_strokes(b'A'),
        vec![SCANCODE_LEFT_SHIFT, 0x1e, 0x9e, SCANCODE_LEFT_SHIFT | 0x80]
    );
    assert_eq!(ascii_key_strokes(b'?'), vec![0x2a, 0x35, 0xb5, 0xaa]);
    assert!(ascii_key_strokes(0x00).is_empty());
    for b in 0u8..=255 {
        let s = ascii_key_strokes(b);
        assert_eq!(s.len() % 2, 0);
        for i in 0..s.len() / 2 {
            assert_eq!(s[s.len() - 1 - i], s[i] | 0x80);
        }
    }
}
