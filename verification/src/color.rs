//! Hex color parsing: `#RRGGBB` to an RGB triple, with the default dark
//! color `(26, 26, 46)` for anything that does not parse.

use vstd::prelude::*;

verus! {

/// Red, green and blue of the default dark color.
pub const DEFAULT_R: u8 = 26;

pub const DEFAULT_G: u8 = 26;

pub const DEFAULT_B: u8 = 46;

/// Hexadecimal digit characters, either case.
pub open spec fn is_hex_digit(c: char) -> bool {
    ('0' <= c && c <= '9') || ('a' <= c && c <= 'f') || ('A' <= c && c <= 'F')
}

/// Numeric value of a hexadecimal digit character.
pub open spec fn hex_val(c: char) -> nat {
    if '0' <= c && c <= '9' {
        (c as nat - '0' as nat) as nat
    } else if 'a' <= c && c <= 'f' {
        (c as nat - 'a' as nat + 10) as nat
    } else {
        (c as nat - 'A' as nat + 10) as nat
    }
}

/// The color text after an optional leading `#`.
pub open spec fn spec_hex_part(s: Seq<char>) -> Seq<char> {
    if s.len() > 0 && s[0] == '#' {
        s.subrange(1, s.len() as int)
    } else {
        s
    }
}

/// A sequence starting with six hexadecimal digits.
pub open spec fn has_six_hex(h: Seq<char>) -> bool {
    h.len() >= 6 && forall|k: int| 0 <= k < 6 ==> is_hex_digit(#[trigger] h[k])
}

/// The color a text names: six hex digits after an optional `#`, in pairs;
/// anything else is the default dark color.
pub open spec fn spec_parse_hex_color(s: Seq<char>) -> (u8, u8, u8) {
    let h = spec_hex_part(s);
    if has_six_hex(h) {
        (
            (hex_val(h[0]) * 16 + hex_val(h[1])) as u8,
            (hex_val(h[2]) * 16 + hex_val(h[3])) as u8,
            (hex_val(h[4]) * 16 + hex_val(h[5])) as u8,
        )
    } else {
        (DEFAULT_R, DEFAULT_G, DEFAULT_B)
    }
}

/// Value of one hexadecimal digit, or nothing.
fn hex_digit_value(c: char) -> (r: Option<u8>)
    ensures
        r is Some <==> is_hex_digit(c),
        r is Some ==> r.unwrap() == hex_val(c) && r.unwrap() < 16,
{
    let code = c as u32;
    if 48 <= code && code <= 57 {
        Some((code - 48) as u8)
    } else if 97 <= code && code <= 102 {
        Some((code - 97 + 10) as u8)
    } else if 65 <= code && code <= 70 {
        Some((code - 65 + 10) as u8)
    } else {
        None
    }
}

/// Parses a `#RRGGBB` color; any input that does not carry six hex digits
/// after the optional `#` gives the default dark color `(26, 26, 46)`.
pub fn parse_hex_color(color: &str) -> (r: (u8, u8, u8))
    ensures
        r == spec_parse_hex_color(color@),
{
    let len = color.unicode_len();
    let start: usize = if len > 0 && color.get_char(0) == '#' {
        1
    } else {
        0
    };
    let ghost h = spec_hex_part(color@);
    proof {
        assert(h =~= color@.subrange(start as int, color@.len() as int));
    }
    if len - start < 6 {
        return (26, 26, 46);
    }
    let mut vals: [u8; 6] = [0, 0, 0, 0, 0, 0];
    let mut i: usize = 0;
    while i < 6
        invariant
            i <= 6,
            len == color@.len(),
            start + 6 <= len,
            h == spec_hex_part(color@),
            h == color@.subrange(start as int, color@.len() as int),
            forall|k: int| 0 <= k < i ==> is_hex_digit(#[trigger] h[k]),
            forall|k: int| 0 <= k < i ==> vals@[k] == hex_val(h[k]) && vals@[k] < 16,
        decreases 6 - i,
    {
        let c = color.get_char(start + i);
        proof {
            assert(h[i as int] == color@[(start + i) as int]);
        }
        match hex_digit_value(c) {
            Some(v) => {
                vals[i] = v;
            },
            None => {
                proof {
                    assert(!is_hex_digit(h[i as int]));
                }
                return (26, 26, 46);
            },
        }
        i += 1;
    }
    let red = vals[0] * 16 + vals[1];
    let green = vals[2] * 16 + vals[3];
    let blue = vals[4] * 16 + vals[5];
    (red, green, blue)
}

/// The lowercase hexadecimal digit character of a value below 16.
pub open spec fn hex_digit_char(v: nat) -> char {
    if v < 10 {
        (('0' as u32) + v as u32) as char
    } else {
        (('a' as u32) + (v - 10) as u32) as char
    }
}

/// The canonical `#rrggbb` text of a color.
pub open spec fn spec_hex_color_string(r: u8, g: u8, b: u8) -> Seq<char> {
    seq![
        '#',
        hex_digit_char(r as nat / 16),
        hex_digit_char(r as nat % 16),
        hex_digit_char(g as nat / 16),
        hex_digit_char(g as nat % 16),
        hex_digit_char(b as nat / 16),
        hex_digit_char(b as nat % 16),
    ]
}

proof fn lemma_hex_digit_char_roundtrip(v: nat)
    requires
        v < 16,
    ensures
        is_hex_digit(hex_digit_char(v)),
        hex_val(hex_digit_char(v)) == v,
{
}

/// Law: the parser round-trips the canonical `#rrggbb` text of every color;
/// together with the parser's contract, any text without six hex digits
/// after the optional `#` gives the default `(26, 26, 46)`.
pub proof fn lemma_hex_color_roundtrip(r: u8, g: u8, b: u8)
    ensures
        spec_parse_hex_color(spec_hex_color_string(r, g, b)) == (r, g, b),
{
    let s = spec_hex_color_string(r, g, b);
    let h = spec_hex_part(s);
    assert(h =~= s.subrange(1, s.len() as int));
    assert(h.len() == 6);
    lemma_hex_digit_char_roundtrip(r as nat / 16);
    lemma_hex_digit_char_roundtrip(r as nat % 16);
    lemma_hex_digit_char_roundtrip(g as nat / 16);
    lemma_hex_digit_char_roundtrip(g as nat % 16);
    lemma_hex_digit_char_roundtrip(b as nat / 16);
    lemma_hex_digit_char_roundtrip(b as nat % 16);
    assert(h[0] == hex_digit_char(r as nat / 16));
    assert(h[1] == hex_digit_char(r as nat % 16));
    assert(h[2] == hex_digit_char(g as nat / 16));
    assert(h[3] == hex_digit_char(g as nat % 16));
    assert(h[4] == hex_digit_char(b as nat / 16));
    assert(h[5] == hex_digit_char(b as nat % 16));
    assert(has_six_hex(h));
    assert(hex_val(h[0]) * 16 + hex_val(h[1]) == r);
    assert(hex_val(h[2]) * 16 + hex_val(h[3]) == g);
    assert(hex_val(h[4]) * 16 + hex_val(h[5]) == b);
}

} // verus!
