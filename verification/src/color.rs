//! Colour transcoding between `#rrggbb` strings and 24-bit colour codes.
//!
//! A colour string is exactly seven characters: a leading `#` followed by
//! six hexadecimal digits, upper or lower case. Parsing a valid string gives
//! the 24-bit code of its digits; anything else degrades to 0, a defensive
//! fallback for callers that skipped validation. Formatting a code always
//! produces the lowercase form, so a parse–format round trip normalizes the
//! digit case and changes nothing else.

use vstd::prelude::*;
use vstd::string::StrSliceExecFns;
use vstd::string::StringExecFns;

verus! {

/// Whether `c` is a hexadecimal digit, upper or lower case.
pub open spec fn is_hex_digit(c: char) -> bool {
    ('0' as u32 <= c as u32 && c as u32 <= '9' as u32) || ('a' as u32 <= c as u32 && c as u32
        <= 'f' as u32) || ('A' as u32 <= c as u32 && c as u32 <= 'F' as u32)
}

/// The numeric value of a hexadecimal digit.
pub open spec fn hex_digit_value(c: char) -> int
    recommends
        is_hex_digit(c),
{
    if '0' as u32 <= c as u32 && c as u32 <= '9' as u32 {
        c as u32 - '0' as u32
    } else if 'a' as u32 <= c as u32 && c as u32 <= 'f' as u32 {
        c as u32 - 'a' as u32 + 10
    } else {
        c as u32 - 'A' as u32 + 10
    }
}

/// The sixteen lowercase hexadecimal digits, in value order.
pub open spec fn hex_chars() -> Seq<char> {
    seq!['0', '1', '2', '3', '4', '5', '6', '7', '8', '9', 'a', 'b', 'c', 'd', 'e', 'f']
}

/// The lowercase form of a hexadecimal digit.
pub open spec fn lowercase_hex(c: char) -> char
    recommends
        is_hex_digit(c),
{
    hex_chars()[hex_digit_value(c)]
}

/// Whether `s` is a syntactically valid colour string: exactly seven
/// characters, a leading `#`, then six hexadecimal digits.
pub open spec fn valid_color_chars(s: Seq<char>) -> bool {
    &&& s.len() == 7
    &&& s[0] == '#'
    &&& is_hex_digit(s[1])
    &&& is_hex_digit(s[2])
    &&& is_hex_digit(s[3])
    &&& is_hex_digit(s[4])
    &&& is_hex_digit(s[5])
    &&& is_hex_digit(s[6])
}

/// The 24-bit colour code a string parses to: the value of its six hex
/// digits when it is valid, and 0 otherwise.
pub open spec fn color_code_of(s: Seq<char>) -> u32 {
    if valid_color_chars(s) {
        (hex_digit_value(s[1]) * 0x100000 + hex_digit_value(s[2]) * 0x10000 + hex_digit_value(
            s[3],
        ) * 0x1000 + hex_digit_value(s[4]) * 0x100 + hex_digit_value(s[5]) * 16 + hex_digit_value(
            s[6],
        )) as u32
    } else {
        0
    }
}

/// The colour string a 24-bit code formats to: `#` followed by the six
/// lowercase hex digits of the code, most significant first.
pub open spec fn color_string_of(code: u32) -> Seq<char>
    recommends
        code <= 0xFFFFFF,
{
    seq![
        '#',
        hex_chars()[(code / 0x100000) as int % 16],
        hex_chars()[(code / 0x10000) as int % 16],
        hex_chars()[(code / 0x1000) as int % 16],
        hex_chars()[(code / 0x100) as int % 16],
        hex_chars()[(code / 16) as int % 16],
        hex_chars()[code as int % 16],
    ]
}

/// A valid colour string with its digit case normalized to lowercase.
pub open spec fn normalized_color(s: Seq<char>) -> Seq<char>
    recommends
        valid_color_chars(s),
{
    seq![
        '#',
        lowercase_hex(s[1]),
        lowercase_hex(s[2]),
        lowercase_hex(s[3]),
        lowercase_hex(s[4]),
        lowercase_hex(s[5]),
        lowercase_hex(s[6]),
    ]
}

/// A parsed colour code always fits in 24 bits.
pub proof fn lemma_color_code_fits(s: Seq<char>)
    ensures
        color_code_of(s) <= 0xFFFFFF,
{
}

/// Parsing a valid colour string and formatting the result gives the same
/// string back with its digit case normalized: the transcoding loses
/// nothing but the case of the digits.
pub proof fn lemma_color_roundtrip(s: Seq<char>)
    requires
        valid_color_chars(s),
    ensures
        color_string_of(color_code_of(s)) == normalized_color(s),
{
    let d1 = hex_digit_value(s[1]);
    let d2 = hex_digit_value(s[2]);
    let d3 = hex_digit_value(s[3]);
    let d4 = hex_digit_value(s[4]);
    let d5 = hex_digit_value(s[5]);
    let d6 = hex_digit_value(s[6]);
    let code = color_code_of(s) as int;
    assert(code == d1 * 0x100000 + d2 * 0x10000 + d3 * 0x1000 + d4 * 0x100 + d5 * 16 + d6);
    assert(code / 0x100000 % 16 == d1) by (nonlinear_arith)
        requires
            code == d1 * 0x100000 + d2 * 0x10000 + d3 * 0x1000 + d4 * 0x100 + d5 * 16 + d6,
            0 <= d1 < 16,
            0 <= d2 < 16,
            0 <= d3 < 16,
            0 <= d4 < 16,
            0 <= d5 < 16,
            0 <= d6 < 16,
    ;
    assert(code / 0x10000 % 16 == d2) by (nonlinear_arith)
        requires
            code == d1 * 0x100000 + d2 * 0x10000 + d3 * 0x1000 + d4 * 0x100 + d5 * 16 + d6,
            0 <= d1 < 16,
            0 <= d2 < 16,
            0 <= d3 < 16,
            0 <= d4 < 16,
            0 <= d5 < 16,
            0 <= d6 < 16,
    ;
    assert(code / 0x1000 % 16 == d3) by (nonlinear_arith)
        requires
            code == d1 * 0x100000 + d2 * 0x10000 + d3 * 0x1000 + d4 * 0x100 + d5 * 16 + d6,
            0 <= d1 < 16,
            0 <= d2 < 16,
            0 <= d3 < 16,
            0 <= d4 < 16,
            0 <= d5 < 16,
            0 <= d6 < 16,
    ;
    assert(code / 0x100 % 16 == d4) by (nonlinear_arith)
        requires
            code == d1 * 0x100000 + d2 * 0x10000 + d3 * 0x1000 + d4 * 0x100 + d5 * 16 + d6,
            0 <= d1 < 16,
            0 <= d2 < 16,
            0 <= d3 < 16,
            0 <= d4 < 16,
            0 <= d5 < 16,
            0 <= d6 < 16,
    ;
    assert(code / 16 % 16 == d5) by (nonlinear_arith)
        requires
            code == d1 * 0x100000 + d2 * 0x10000 + d3 * 0x1000 + d4 * 0x100 + d5 * 16 + d6,
            0 <= d1 < 16,
            0 <= d2 < 16,
            0 <= d3 < 16,
            0 <= d4 < 16,
            0 <= d5 < 16,
            0 <= d6 < 16,
    ;
    assert(code % 16 == d6) by (nonlinear_arith)
        requires
            code == d1 * 0x100000 + d2 * 0x10000 + d3 * 0x1000 + d4 * 0x100 + d5 * 16 + d6,
            0 <= d6 < 16,
            0 <= d5 < 16,
            0 <= d4 < 16,
            0 <= d3 < 16,
            0 <= d2 < 16,
            0 <= d1 < 16,
    ;
    assert(color_string_of(color_code_of(s)) =~= normalized_color(s));
}

/// The red, green and blue channels of a colour code, for handing to a
/// colour actuator; bits above the low 24 are ignored.
pub fn rgb_channels(color: u32) -> (r: (u8, u8, u8))
    ensures
        r.0 as int == color / 0x10000 % 256,
        r.1 as int == color / 0x100 % 256,
        r.2 as int == color % 256,
{
    (((color / 0x10000) % 256) as u8, ((color / 0x100) % 256) as u8, (color % 256) as u8)
}

/// The numeric value of a hexadecimal digit character, if it is one.
fn hex_value(c: char) -> (r: Option<u8>)
    ensures
        r is Some <==> is_hex_digit(c),
        r is Some ==> r->0 as int == hex_digit_value(c) && r->0 < 16,
{
    let v = c as u32;
    if '0' as u32 <= v && v <= '9' as u32 {
        Some((v - '0' as u32) as u8)
    } else if 'a' as u32 <= v && v <= 'f' as u32 {
        Some((v - 'a' as u32 + 10) as u8)
    } else if 'A' as u32 <= v && v <= 'F' as u32 {
        Some((v - 'A' as u32 + 10) as u8)
    } else {
        None
    }
}

/// Whether `s` is a syntactically valid colour string.
pub fn color_ok(s: &str) -> (r: bool)
    ensures
        r == valid_color_chars(s@),
{
    if s.unicode_len() != 7 {
        return false;
    }
    if s.get_char(0) != '#' {
        return false;
    }
    let mut i: usize = 1;
    while i < 7
        invariant
            1 <= i <= 7,
            s@.len() == 7,
            s@[0] == '#',
            forall|j: int| 1 <= j < i ==> is_hex_digit(#[trigger] s@[j]),
        decreases 7 - i,
    {
        if hex_value(s.get_char(i)).is_none() {
            return false;
        }
        i = i + 1;
    }
    true
}

/// Parse a colour string to its 24-bit code; anything not a valid colour
/// string parses to 0.
pub fn parse_color(s: &str) -> (r: u32)
    ensures
        r == color_code_of(s@),
        r <= 0xFFFFFF,
{
    if s.unicode_len() != 7 {
        return 0;
    }
    if s.get_char(0) != '#' {
        return 0;
    }
    let d1 = match hex_value(s.get_char(1)) {
        Some(v) => v,
        None => {
            return 0;
        },
    };
    let d2 = match hex_value(s.get_char(2)) {
        Some(v) => v,
        None => {
            return 0;
        },
    };
    let d3 = match hex_value(s.get_char(3)) {
        Some(v) => v,
        None => {
            return 0;
        },
    };
    let d4 = match hex_value(s.get_char(4)) {
        Some(v) => v,
        None => {
            return 0;
        },
    };
    let d5 = match hex_value(s.get_char(5)) {
        Some(v) => v,
        None => {
            return 0;
        },
    };
    let d6 = match hex_value(s.get_char(6)) {
        Some(v) => v,
        None => {
            return 0;
        },
    };
    (d1 as u32) * 0x100000 + (d2 as u32) * 0x10000 + (d3 as u32) * 0x1000 + (d4 as u32) * 0x100 + (
    d5 as u32) * 16 + (d6 as u32)
}

/// Format a 24-bit colour code as its lowercase colour string.
pub fn format_color(code: u32) -> (r: String)
    requires
        code <= 0xFFFFFF,
    ensures
        r@ == color_string_of(code),
{
    let hex: &str = "0123456789abcdef";
    proof {
        reveal_strlit("0123456789abcdef");
        reveal_strlit("#");
        assert(hex@ =~= hex_chars());
    }
    let mut out = String::from_str("#");
    proof {
        assert(out@ =~= seq!['#']);
    }
    let i1 = ((code / 0x100000) % 16) as usize;
    out.append(hex.substring_char(i1, i1 + 1));
    let i2 = ((code / 0x10000) % 16) as usize;
    out.append(hex.substring_char(i2, i2 + 1));
    let i3 = ((code / 0x1000) % 16) as usize;
    out.append(hex.substring_char(i3, i3 + 1));
    let i4 = ((code / 0x100) % 16) as usize;
    out.append(hex.substring_char(i4, i4 + 1));
    let i5 = ((code / 16) % 16) as usize;
    out.append(hex.substring_char(i5, i5 + 1));
    let i6 = (code % 16) as usize;
    out.append(hex.substring_char(i6, i6 + 1));
    proof {
        assert(out@ =~= color_string_of(code));
    }
    out
}

} // verus!
