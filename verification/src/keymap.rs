//! Mapping of ASCII bytes, as typed on the serial console, to PS/2
//! scan code set 1 key strokes on a US keyboard layout.
use vstd::prelude::*;

verus! {

/// Make code of the left shift key.
pub const SCANCODE_LEFT_SHIFT: u8 = 0x2a;
/// Bit that turns a make code into the matching break (release) code.
pub const SCANCODE_RELEASE: u8 = 0x80;

/// Make code of the key that carries the lower-case letter `c`.
pub open spec fn letter_code(c: u8) -> u8 {
    match c {
        0x61 => 0x1e,  // a
        0x62 => 0x30,  // b
        0x63 => 0x2e,  // c
        0x64 => 0x20,  // d
        0x65 => 0x12,  // e
        0x66 => 0x21,  // f
        0x67 => 0x22,  // g
        0x68 => 0x23,  // h
        0x69 => 0x17,  // i
        0x6a => 0x24,  // j
        0x6b => 0x25,  // k
        0x6c => 0x26,  // l
        0x6d => 0x32,  // m
        0x6e => 0x31,  // n
        0x6f => 0x18,  // o
        0x70 => 0x19,  // p
        0x71 => 0x10,  // q
        0x72 => 0x13,  // r
        0x73 => 0x1f,  // s
        0x74 => 0x14,  // t
        0x75 => 0x16,  // u
        0x76 => 0x2f,  // v
        0x77 => 0x11,  // w
        0x78 => 0x2d,  // x
        0x79 => 0x15,  // y
        _ => 0x2c,  // z
    }
}

/// Make code of the key that yields `c` without shift, for the bytes other
/// than letters that a key produces unshifted.
pub open spec fn plain_key_code(c: u8) -> Option<u8> {
    match c {
        0x0d | 0x0a => Some(0x1cu8),  // enter
        0x08 | 0x7f => Some(0x0eu8),  // backspace
        0x09 => Some(0x0fu8),  // tab
        0x20 => Some(0x39u8),  // space
        0x31 => Some(0x02u8),  // 1
        0x32 => Some(0x03u8),  // 2
        0x33 => Some(0x04u8),  // 3
        0x34 => Some(0x05u8),  // 4
        0x35 => Some(0x06u8),  // 5
        0x36 => Some(0x07u8),  // 6
        0x37 => Some(0x08u8),  // 7
        0x38 => Some(0x09u8),  // 8
        0x39 => Some(0x0au8),  // 9
        0x30 => Some(0x0bu8),  // 0
        0x2d => Some(0x0cu8),  // -
        0x3d => Some(0x0du8),  // =
        0x5b => Some(0x1au8),  // [
        0x5d => Some(0x1bu8),  // ]
        0x3b => Some(0x27u8),  // ;
        0x27 => Some(0x28u8),  // '
        0x60 => Some(0x29u8),  // `
        0x5c => Some(0x2bu8),  // backslash
        0x2c => Some(0x33u8),  // ,
        0x2e => Some(0x34u8),  // .
        0x2f => Some(0x35u8),  // /
        _ => None,
    }
}

/// For a symbol typed with shift held, the byte that the same key yields
/// without shift.
pub open spec fn unshifted_symbol(c: u8) -> Option<u8> {
    match c {
        0x21 => Some(0x31u8),  // ! on 1
        0x40 => Some(0x32u8),  // @ on 2
        0x23 => Some(0x33u8),  // # on 3
        0x24 => Some(0x34u8),  // $ on 4
        0x25 => Some(0x35u8),  // % on 5
        0x5e => Some(0x36u8),  // ^ on 6
        0x26 => Some(0x37u8),  // & on 7
        0x2a => Some(0x38u8),  // * on 8
        0x28 => Some(0x39u8),  // ( on 9
        0x29 => Some(0x30u8),  // ) on 0
        0x5f => Some(0x2du8),  // _ on -
        0x2b => Some(0x3du8),  // + on =
        0x7b => Some(0x5bu8),  // { on [
        0x7d => Some(0x5du8),  // } on ]
        0x3a => Some(0x3bu8),  // : on ;
        0x22 => Some(0x27u8),  // " on '
        0x7e => Some(0x60u8),  // ~ on `
        0x7c => Some(0x5cu8),  // | on backslash
        0x3c => Some(0x2cu8),  // < on ,
        0x3e => Some(0x2eu8),  // > on .
        0x3f => Some(0x2fu8),  // ? on /
        _ => None,
    }
}

pub open spec fn is_upper(c: u8) -> bool {
    0x41 <= c <= 0x5a
}

pub open spec fn is_lower(c: u8) -> bool {
    0x61 <= c <= 0x7a
}

/// The key stroke that types `c`: the make code of the key and whether
/// shift must be held; none for a byte that no key of the layout types.
pub open spec fn key_for_ascii(c: u8) -> Option<(u8, bool)> {
    if is_upper(c) {
        Some((letter_code((c + 0x20) as u8), true))
    } else if is_lower(c) {
        Some((letter_code(c), false))
    } else if let Some(base) = unshifted_symbol(c) {
        Some((plain_key_code(base).unwrap(), true))
    } else if let Some(code) = plain_key_code(c) {
        Some((code, false))
    } else {
        None
    }
}

/// Maps an ASCII byte to its set-1 make code and whether shift is needed.
#[verifier::rlimit(40)]
pub fn ascii_to_set1(byte: u8) -> (r: Option<(u8, bool)>)
    ensures
        r == key_for_ascii(byte),
{
    let lower = match byte {
        0x41..=0x5a => byte + (0x61 - 0x41),  // A to Z: to lower case
        _ => byte,
    };
    let shift_for_alpha = 0x41 <= byte && byte <= 0x5a;  // upper case
    let alpha: Option<u8> = match lower {
        0x61 => Some(0x1e),  // a
        0x62 => Some(0x30),  // b
        0x63 => Some(0x2e),  // c
        0x64 => Some(0x20),  // d
        0x65 => Some(0x12),  // e
        0x66 => Some(0x21),  // f
        0x67 => Some(0x22),  // g
        0x68 => Some(0x23),  // h
        0x69 => Some(0x17),  // i
        0x6a => Some(0x24),  // j
        0x6b => Some(0x25),  // k
        0x6c => Some(0x26),  // l
        0x6d => Some(0x32),  // m
        0x6e => Some(0x31),  // n
        0x6f => Some(0x18),  // o
        0x70 => Some(0x19),  // p
        0x71 => Some(0x10),  // q
        0x72 => Some(0x13),  // r
        0x73 => Some(0x1f),  // s
        0x74 => Some(0x14),  // t
        0x75 => Some(0x16),  // u
        0x76 => Some(0x2f),  // v
        0x77 => Some(0x11),  // w
        0x78 => Some(0x2d),  // x
        0x79 => Some(0x15),  // y
        0x7a => Some(0x2c),  // z
        _ => None,
    };
    if let Some(scancode) = alpha {
        return Some((scancode, shift_for_alpha));
    }
    let shifted: (u8, bool) = match byte {
        0x21 => (0x02, true),  // !
        0x40 => (0x03, true),  // @
        0x23 => (0x04, true),  // #
        0x24 => (0x05, true),  // $
        0x25 => (0x06, true),  // %
        0x5e => (0x07, true),  // ^
        0x26 => (0x08, true),  // &
        0x2a => (0x09, true),  // *
        0x28 => (0x0a, true),  // (
        0x29 => (0x0b, true),  // )
        0x5f => (0x0c, true),  // _
        0x2b => (0x0d, true),  // +
        0x7b => (0x1a, true),  // {
        0x7d => (0x1b, true),  // }
        0x3a => (0x27, true),  // :
        0x22 => (0x28, true),  // "
        0x7e => (0x29, true),  // ~
        0x7c => (0x2b, true),  // |
        0x3c => (0x33, true),  // <
        0x3e => (0x34, true),  // >
        0x3f => (0x35, true),  // ?
        _ => (0, false),
    };
    if shifted.0 != 0 {
        return Some(shifted);
    }
    let plain: (u8, bool) = match byte {
        0x0d | 0x0a => (0x1c, false),  // CR, LF
        0x08 | 0x7f => (0x0e, false),  // BS, DEL
        0x09 => (0x0f, false),  // TAB
        0x20 => (0x39, false),  // space
        0x31 => (0x02, false),  // 1
        0x32 => (0x03, false),  // 2
        0x33 => (0x04, false),  // 3
        0x34 => (0x05, false),  // 4
        0x35 => (0x06, false),  // 5
        0x36 => (0x07, false),  // 6
        0x37 => (0x08, false),  // 7
        0x38 => (0x09, false),  // 8
        0x39 => (0x0a, false),  // 9
        0x30 => (0x0b, false),  // 0
        0x2d => (0x0c, false),  // -
        0x3d => (0x0d, false),  // =
        0x5b => (0x1a, false),  // [
        0x5d => (0x1b, false),  // ]
        0x3b => (0x27, false),  // ;
        0x27 => (0x28, false),  // '
        0x60 => (0x29, false),  // `
        0x5c => (0x2b, false),  // backslash
        0x2c => (0x33, false),  // ,
        0x2e => (0x34, false),  // .
        0x2f => (0x35, false),  // /
        _ => return None,
    };
    Some(plain)
}

/// The keys of the top letter row of a US keyboard, left to right, by the
/// byte they type without shift.
pub open spec fn top_row() -> Seq<u8> {
    seq![0x71u8, 0x77u8, 0x65u8, 0x72u8, 0x74u8, 0x79u8, 0x75u8, 0x69u8, 0x6fu8, 0x70u8, 0x5bu8, 0x5du8]
}

/// The keys of the home row, left to right.
pub open spec fn home_row() -> Seq<u8> {
    seq![0x61u8, 0x73u8, 0x64u8, 0x66u8, 0x67u8, 0x68u8, 0x6au8, 0x6bu8, 0x6cu8, 0x3bu8, 0x27u8, 0x60u8]
}

/// The keys of the bottom row, left to right.
pub open spec fn bottom_row() -> Seq<u8> {
    seq![0x7au8, 0x78u8, 0x63u8, 0x76u8, 0x62u8, 0x6eu8, 0x6du8, 0x2cu8, 0x2eu8, 0x2fu8]
}

/// The keys of the number row, left to right.
pub open spec fn number_row() -> Seq<u8> {
    seq![0x31u8, 0x32u8, 0x33u8, 0x34u8, 0x35u8, 0x36u8, 0x37u8, 0x38u8, 0x39u8, 0x30u8, 0x2du8, 0x3du8]
}

/// Set 1 numbers the keys of each row of the US layout consecutively from
/// the left: the number row from 0x02, the top row from 0x10, the home row
/// from 0x1e and the bottom row from 0x2c; these keys type their byte
/// without shift (a letter in lower case).
pub proof fn lemma_rows_are_numbered_in_order(i: int)
    ensures
        0 <= i < 12 ==> key_for_ascii(number_row()[i]) == Some(((0x02 + i) as u8, false)),
        0 <= i < 12 ==> key_for_ascii(top_row()[i]) == Some(((0x10 + i) as u8, false)),
        0 <= i < 12 ==> key_for_ascii(home_row()[i]) == Some(((0x1e + i) as u8, false)),
        0 <= i < 10 ==> key_for_ascii(bottom_row()[i]) == Some(((0x2c + i) as u8, false)),
{
    if 0 <= i < 12 {
        if i == 0 {
        } else if i == 1 {
        } else if i == 2 {
        } else if i == 3 {
        } else if i == 4 {
        } else if i == 5 {
        } else if i == 6 {
        } else if i == 7 {
        } else if i == 8 {
        } else if i == 9 {
        } else if i == 10 {
        } else if i == 11 {
        }
    }
}

/// Carriage return and line feed both type Enter, backspace and delete both
/// type Backspace, and these editing keys never need shift.
pub proof fn lemma_line_and_erase_keys_agree()
    ensures
        key_for_ascii(0x0d) == key_for_ascii(0x0a),
        key_for_ascii(0x08) == key_for_ascii(0x7f),
        key_for_ascii(0x0d) matches Some((_, false)),
        key_for_ascii(0x08) matches Some((_, false)),
        key_for_ascii(0x0d) != key_for_ascii(0x08),
{
}

/// The letter whose key has make code `code`.
pub open spec fn letter_of_code(code: u8) -> u8 {
    if 0x10 <= code < 0x1a {
        top_row()[code - 0x10]
    } else if 0x1e <= code < 0x27 {
        home_row()[code - 0x1e]
    } else {
        bottom_row()[code - 0x2c]
    }
}

/// Each letter has a key of its own: distinct letters (of either case) are
/// typed on distinct keys.
pub proof fn lemma_letters_have_distinct_keys(a: u8, b: u8)
    requires
        is_lower(a),
        is_lower(b),
        a != b,
    ensures
        key_for_ascii(a) != key_for_ascii(b),
        key_for_ascii((a - 0x20) as u8) != key_for_ascii((b - 0x20) as u8),
{
    lemma_letter_code_inverts(a);
    lemma_letter_code_inverts(b);
}

proof fn lemma_letter_code_inverts(c: u8)
    requires
        is_lower(c),
    ensures
        letter_of_code(letter_code(c)) == c,
{
    assert(top_row() =~= seq![0x71u8, 0x77u8, 0x65u8, 0x72u8, 0x74u8, 0x79u8, 0x75u8, 0x69u8, 0x6fu8, 0x70u8, 0x5bu8, 0x5du8]);
    assert(home_row() =~= seq![0x61u8, 0x73u8, 0x64u8, 0x66u8, 0x67u8, 0x68u8, 0x6au8, 0x6bu8, 0x6cu8, 0x3bu8, 0x27u8, 0x60u8]);
    assert(bottom_row() =~= seq![0x7au8, 0x78u8, 0x63u8, 0x76u8, 0x62u8, 0x6eu8, 0x6du8, 0x2cu8, 0x2eu8, 0x2fu8]);
}

/// The scan codes that type `c`: shift pressed (when needed), the key
/// pressed and released, then shift released.
pub open spec fn key_stroke_codes(c: u8) -> Seq<u8> {
    match key_for_ascii(c) {
        None => Seq::empty(),
        Some((code, false)) => seq![code, code | SCANCODE_RELEASE],
        Some((code, true)) => seq![
            SCANCODE_LEFT_SHIFT,
            code,
            code | SCANCODE_RELEASE,
            SCANCODE_LEFT_SHIFT | SCANCODE_RELEASE,
        ],
    }
}

/// The scan codes to forward to the input service for a byte typed on the
/// serial console; empty for a byte that no key types.
pub fn ascii_key_strokes(byte: u8) -> (r: Vec<u8>)
    ensures
        r@ == key_stroke_codes(byte),
{
    let mut strokes: Vec<u8> = Vec::new();
    if let Some((scancode, needs_shift)) = ascii_to_set1(byte) {
        if needs_shift {
            strokes.push(SCANCODE_LEFT_SHIFT);
        }
        strokes.push(scancode);
        strokes.push(scancode | SCANCODE_RELEASE);
        if needs_shift {
            strokes.push(SCANCODE_LEFT_SHIFT | SCANCODE_RELEASE);
        }
    }
    strokes
}

/// Every key stroke uses a make code: a nonzero code below the release bit,
/// so that its break code differs from every make code.
pub proof fn lemma_key_codes_are_make_codes(c: u8)
    ensures
        key_for_ascii(c) matches Some((code, shift)) ==> 0 < code < SCANCODE_RELEASE,
{
}

/// An upper-case letter is typed on the key of its lower-case letter, with
/// shift held.
pub proof fn lemma_upper_case_is_shifted_letter(c: u8)
    requires
        is_lower(c),
    ensures
        key_for_ascii((c - 0x20) as u8) == Some((key_for_ascii(c).unwrap().0, true)),
        key_for_ascii(c) == Some((key_for_ascii(c).unwrap().0, false)),
{
}

/// A symbol typed with shift uses the same key as the byte that key types
/// without shift.
pub proof fn lemma_shifted_symbol_shares_key(c: u8)
    requires
        unshifted_symbol(c) is Some,
    ensures
        key_for_ascii(unshifted_symbol(c).unwrap()) matches Some((code, false)) && key_for_ascii(c)
            == Some((code, true)),
{
}

/// The strokes for a byte release the keys in the reverse order in which they
/// were pressed: the i-th code from the end is the break code of the i-th
/// code, which is a make code.
pub proof fn lemma_strokes_release_in_reverse(c: u8, i: int)
    requires
        0 <= i < key_stroke_codes(c).len() / 2,
    ensures
        key_stroke_codes(c).len() % 2 == 0,
        key_stroke_codes(c)[i] < SCANCODE_RELEASE,
        key_stroke_codes(c)[key_stroke_codes(c).len() - 1 - i] == key_stroke_codes(c)[i]
            | SCANCODE_RELEASE,
{
    lemma_key_codes_are_make_codes(c);
    let s = key_stroke_codes(c);
    if let Some((code, shift)) = key_for_ascii(c) {
        assert(code < 0x80u8 ==> (code | 0x80u8) != code) by (bit_vector);
    }
}

} // verus!
