//! Display colours and their hexadecimal notation.

use vstd::prelude::*;
use vstd::string::*;

verus! {

/// A 24-bit display colour.
#[derive(Clone, Copy, Debug, PartialEq, Eq, Structural)]
pub struct SColor {
    pub r: u8,
    pub g: u8,
    pub b: u8,
}

/// Whether `c` is one of `0-9`, `a-f`, `A-F`.
pub open spec fn is_hex_digit(c: char) -> bool {
    ('0' <= c && c <= '9') || ('a' <= c && c <= 'f') || ('A' <= c && c <= 'F')
}

/// The number a hexadecimal digit stands for.
pub open spec fn hex_value(c: char) -> int {
    if '0' <= c && c <= '9' {
        c as int - '0' as int
    } else if 'a' <= c && c <= 'f' {
        c as int - 'a' as int + 10
    } else {
        c as int - 'A' as int + 10
    }
}

/// Whether `s` is `#` followed by three or by six hexadecimal digits.
pub open spec fn is_color_text(s: Seq<char>) -> bool {
    &&& s.len() == 4 || s.len() == 7
    &&& s[0] == '#'
    &&& forall|i: int| 1 <= i < s.len() ==> is_hex_digit(#[trigger] s[i])
}

/// The colour that a well-formed colour text denotes. In the short form
/// each digit stands for itself twice: `#fa0` is `#ffaa00`.
pub open spec fn color_of_text(s: Seq<char>) -> SColor {
    if s.len() == 4 {
        SColor {
            r: (17 * hex_value(s[1])) as u8,
            g: (17 * hex_value(s[2])) as u8,
            b: (17 * hex_value(s[3])) as u8,
        }
    } else {
        SColor {
            r: (16 * hex_value(s[1]) + hex_value(s[2])) as u8,
            g: (16 * hex_value(s[3]) + hex_value(s[4])) as u8,
            b: (16 * hex_value(s[5]) + hex_value(s[6])) as u8,
        }
    }
}

fn hex_digit(c: char) -> (b: bool)
    ensures
        b == is_hex_digit(c),
{
    ('0' <= c && c <= '9') || ('a' <= c && c <= 'f') || ('A' <= c && c <= 'F')
}

/// Whether `text` is a well-formed colour text.
pub fn is_color_str(text: &str) -> (b: bool)
    ensures
        b == is_color_text(text@),
{
    let n: usize = text.unicode_len();
    if n != 4 && n != 7 {
        return false;
    }
    if text.get_char(0) != '#' {
        return false;
    }
    let mut i: usize = 1;
    while i < n
        invariant
            1 <= i <= n,
            n == text@.len(),
            forall|j: int| 1 <= j < i ==> is_hex_digit(#[trigger] text@[j]),
        decreases n - i,
    {
        if !hex_digit(text.get_char(i)) {
            return false;
        }
        i += 1;
    }
    true
}

/// `HexColor::parse_rgb` of the `hex_color` crate, on a well-formed colour
/// text: it reads the three or six digits after the `#` as the red, green
/// and blue components and succeeds.
#[verifier::external_body]
fn hex_parse_rgb(text: &str) -> (out: Option<SColor>)
    requires
        is_color_text(text@),
    ensures
        out == Some(color_of_text(text@)),
{
    match hex_color::HexColor::parse_rgb(text) {
        Ok(c) => Some(SColor { r: c.r, g: c.g, b: c.b }),
        Err(_) => None,
    }
}

/// Reads a colour written as `#RGB` or `#RRGGBB`; any other text is refused.
pub fn parse_color(text: &str) -> (out: Option<SColor>)
    ensures
        out == if is_color_text(text@) {
            Some(color_of_text(text@))
        } else {
            None
        },
{
    if is_color_str(text) {
        hex_parse_rgb(text)
    } else {
        None
    }
}

} // verus!
