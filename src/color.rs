use vstd::prelude::*;
use vstd::string::{StrSliceExecFns, StringExecFns};
use crate::error::GlassError;

verus! {

/// A colour as four 8-bit channels. Each channel `c` stands for the
/// normalised component `c / 255`.
#[derive(Debug, Clone, Copy, PartialEq, Eq)]
pub struct Rgba8 {
    pub r: u8,
    pub g: u8,
    pub b: u8,
    pub a: u8,
}

/// What `str::trim` returns for a string.
pub uninterp spec fn trimmed_of(s: Seq<char>) -> Seq<char>;

pub open spec fn is_hex_digit(c: char) -> bool {
    ('0' <= c && c <= '9') || ('a' <= c && c <= 'f') || ('A' <= c && c <= 'F')
}

pub open spec fn hex_value(c: char) -> int {
    if '0' <= c && c <= '9' {
        c as int - '0' as int
    } else if 'a' <= c && c <= 'f' {
        c as int - 'a' as int + 10
    } else {
        c as int - 'A' as int + 10
    }
}

/// The byte written by the two digits at positions `2 * i` and `2 * i + 1`.
pub open spec fn byte_at(s: Seq<char>, i: int) -> int {
    16 * hex_value(s[2 * i]) + hex_value(s[2 * i + 1])
}

/// The colour written by exactly six (`RRGGBB`) or eight (`RRGGBBAA`) hex
/// digits; alpha is opaque in the six-digit form.
pub open spec fn digits_color(s: Seq<char>) -> Option<Rgba8> {
    if (s.len() == 6 || s.len() == 8) && forall|i: int| 0 <= i < s.len() ==> is_hex_digit(#[trigger] s[i]) {
        Some(Rgba8 {
            r: byte_at(s, 0) as u8,
            g: byte_at(s, 1) as u8,
            b: byte_at(s, 2) as u8,
            a: if s.len() == 8 { byte_at(s, 3) as u8 } else { 255u8 },
        })
    } else {
        None
    }
}

/// The text without one optional leading `#`.
pub open spec fn without_hash(s: Seq<char>) -> Seq<char> {
    if s.len() > 0 && s[0] == '#' { s.drop_first() } else { s }
}

/// The colour that a hex colour string stands for, once its surrounding
/// whitespace is gone.
pub open spec fn trimmed_color(t: Seq<char>) -> Option<Rgba8> {
    digits_color(without_hash(t))
}

/// Relies on `str::trim`: the string without leading and trailing whitespace.
#[verifier::external_body]
fn trim_str(s: &str) -> (r: &str)
    ensures
        r@ == trimmed_of(s@),
{
    s.trim()
}

fn hex_digit(c: char) -> (r: Option<u8>)
    ensures
        r is Some <==> is_hex_digit(c),
        r is Some ==> r->Some_0 as int == hex_value(c) && r->Some_0 < 16,
{
    if '0' <= c && c <= '9' {
        Some((c as u32 - '0' as u32) as u8)
    } else if 'a' <= c && c <= 'f' {
        Some((c as u32 - 'a' as u32 + 10) as u8)
    } else if 'A' <= c && c <= 'F' {
        Some((c as u32 - 'A' as u32 + 10) as u8)
    } else {
        None
    }
}

/// Reads the byte at digit positions `2 * i` and `2 * i + 1`.
fn read_byte(s: &str, i: usize) -> (r: Option<u8>)
    requires
        2 * i + 1 < s@.len() <= 8,
    ensures
        r is Some <==> (is_hex_digit(s@[2 * i as int]) && is_hex_digit(s@[2 * i + 1])),
        r is Some ==> r->Some_0 as int == byte_at(s@, i as int),
{
    let hi = hex_digit(s.get_char(2 * i));
    let lo = hex_digit(s.get_char(2 * i + 1));
    match (hi, lo) {
        (Some(h), Some(l)) => Some(h * 16 + l),
        _ => None,
    }
}

/// Parses exactly six or eight hex digits, with nothing around them.
pub fn parse_hex_digits(s: &str) -> (r: Option<Rgba8>)
    ensures
        r == digits_color(s@),
{
    let n = s.unicode_len();
    if n != 6 && n != 8 {
        return None;
    }
    let pairs: usize = n / 2;
    let mut bytes: Vec<u8> = Vec::new();
    let mut i: usize = 0;
    while i < pairs
        invariant
            n == s@.len(),
            n == 6 || n == 8,
            pairs == n / 2,
            i <= pairs,
            bytes@.len() == i,
            forall|k: int| 0 <= k < 2 * i ==> is_hex_digit(#[trigger] s@[k]),
            forall|k: int| 0 <= k < i ==> bytes@[k] as int == byte_at(s@, k),
        decreases pairs - i,
    {
        match read_byte(s, i) {
            Some(v) => bytes.push(v),
            None => {
                assert(!is_hex_digit(s@[2 * i as int]) || !is_hex_digit(s@[2 * i + 1]));
                return None;
            },
        }
        i = i + 1;
    }
    let a = if n == 8 { bytes[3] } else { 255u8 };
    Some(Rgba8 { r: bytes[0], g: bytes[1], b: bytes[2], a })
}

/// Parses a hex colour that has no surrounding whitespace: one optional
/// leading `#`, then six or eight hex digits.
pub fn parse_trimmed_hex(t: &str) -> (r: Option<Rgba8>)
    ensures
        r == trimmed_color(t@),
{
    let n = t.unicode_len();
    if n > 0 && t.get_char(0) == '#' {
        let digits = t.substring_char(1, n);
        assert(digits@ =~= t@.drop_first());
        parse_hex_digits(digits)
    } else {
        parse_hex_digits(t)
    }
}

/// Parses `#RRGGBB` or `#RRGGBBAA` (the `#` optional, surrounding
/// whitespace ignored) into a colour.
pub fn parse_hex_color(hex: &str) -> (r: Result<Rgba8, GlassError>)
    ensures
        match trimmed_color(trimmed_of(hex@)) {
            Some(c) => r == Ok::<Rgba8, GlassError>(c),
            None => r matches Err(GlassError::InvalidColor(s)) && s@ == hex@,
        },
{
    let t = trim_str(hex);
    match parse_trimmed_hex(t) {
        Some(c) => Ok(c),
        None => Err(GlassError::InvalidColor(String::from_str(hex))),
    }
}

} // verus!
