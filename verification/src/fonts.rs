//! Icon font constants and the parsing of unicode code points.

use vstd::prelude::*;
use vstd::utf8::is_scalar;

use crate::text::unsigned_digits;

verus! {

/// Code points of the icons the interface uses.
pub struct IconsCodePoints;

impl IconsCodePoints {
    pub const INFO: char = '\u{e88e}';
}

/// Names of the icon fonts the interface registers.
pub struct FONTS;

impl FONTS {
    /// Name of the icon font family.
    pub const ICONS: &'static str = "ICONS";

    pub const ICONS_MATERIAL_ROUNDED: &'static str = "ICON_FONT_ROUNDED";
}

#[verifier::external_type_specification]
#[verifier::external_body]
pub struct ExParseIntError(std::num::ParseIntError);

/// Why a text is not a unicode code point.
#[derive(Debug, PartialEq)]
pub enum UnicodeError {
    /// It is not a hexadecimal `u32`.
    Int(std::num::ParseIntError),
    /// The number is not a unicode scalar value.
    Unicode(u32),
}

/// The value of a hexadecimal digit, in either case.
pub open spec fn hex_digit_value(c: char) -> Option<int> {
    let v = c as int;
    if 48 <= v <= 57 {
        Some(v - 48)
    } else if 97 <= v <= 102 {
        Some(v - 87)
    } else if 65 <= v <= 70 {
        Some(v - 55)
    } else {
        None
    }
}

/// The value of a sequence of hexadecimal digits; `None` where one is not a
/// hexadecimal digit.
pub open spec fn hex_value(s: Seq<char>) -> Option<int>
    decreases s.len(),
{
    if s.len() == 0 {
        Some(0)
    } else {
        match (hex_value(s.drop_last()), hex_digit_value(s.last())) {
            (Some(a), Some(d)) => Some(a * 16 + d),
            _ => None,
        }
    }
}

/// What `u32::from_str_radix(s, 16)` gives: an optional `+`, then at least
/// one hexadecimal digit, for a value that fits in a `u32`.
pub open spec fn hex_u32_spec(s: Seq<char>) -> Option<u32> {
    let d = unsigned_digits(s);
    if d.len() > 0 && hex_value(d) is Some && hex_value(d).unwrap() <= u32::MAX {
        Some(hex_value(d).unwrap() as u32)
    } else {
        None
    }
}

/// The hexadecimal digit of a value below sixteen, in lower or upper case.
pub open spec fn hex_digit_char(d: int, upper: bool) -> char {
    if d < 10 {
        (48 + d) as char
    } else if upper {
        (55 + d) as char
    } else {
        (87 + d) as char
    }
}

/// Hexadecimal rendering of a number without leading zeros, in lower or upper
/// case, as the `{:x}` and `{:X}` formats render it.
pub open spec fn hex_text(n: nat, upper: bool) -> Seq<char>
    decreases n,
{
    if n < 16 {
        seq![hex_digit_char(n as int, upper)]
    } else {
        hex_text(n / 16, upper).push(hex_digit_char((n % 16) as int, upper))
    }
}

proof fn lemma_hex_digit_char(d: int, upper: bool)
    requires
        0 <= d < 16,
    ensures
        hex_digit_value(hex_digit_char(d, upper)) == Some(d),
        hex_digit_char(d, upper) != '+',
{
    let c = hex_digit_char(d, upper);
    if d < 10 {
        assert(c as int == 48 + d);
    } else if upper {
        assert(c as int == 55 + d);
    } else {
        assert(c as int == 87 + d);
    }
}

proof fn lemma_hex_text_value(n: nat, upper: bool)
    ensures
        hex_text(n, upper).len() > 0,
        hex_text(n, upper)[0] != '+',
        hex_value(hex_text(n, upper)) == Some(n as int),
    decreases n,
{
    let s = hex_text(n, upper);
    if n < 16 {
        lemma_hex_digit_char(n as int, upper);
        assert(s.drop_last() =~= Seq::<char>::empty());
        assert(hex_value(Seq::<char>::empty()) == Some(0int));
        assert(s.last() == hex_digit_char(n as int, upper));
    } else {
        lemma_hex_digit_char((n % 16) as int, upper);
        lemma_hex_text_value(n / 16, upper);
        assert(s.drop_last() =~= hex_text(n / 16, upper));
        assert(s.last() == hex_digit_char((n % 16) as int, upper));
        assert(hex_value(s) == Some((n / 16) as int * 16 + (n % 16) as int));
    }
}

/// The hexadecimal code point of a character, in either case, reads back as
/// that character: `parse_unicode` gives `Ok(c)` for it.
pub proof fn lemma_parse_unicode_hex(c: char, upper: bool)
    ensures
        hex_u32_spec(hex_text(c as nat, upper)) == Some(c as u32),
        is_scalar(c as u32),
{
    lemma_hex_text_value(c as nat, upper);
}

/// Parses a hexadecimal `u32`.
///
/// Trusted: calls `u32::from_str_radix` with radix 16, whose documentation
/// accepts exactly an optional `+` followed by at least one digit of the
/// radix, for a value in range.
#[verifier::external_body]
fn u32_from_hex(input: &str) -> (r: Result<u32, std::num::ParseIntError>)
    ensures
        r is Ok <==> hex_u32_spec(input@) is Some,
        r matches Ok(v) ==> hex_u32_spec(input@) == Some(v),
{
    u32::from_str_radix(input, 16)
}

/// The character of a code point.
///
/// Trusted: calls `char::from_u32`, which gives a character exactly for the
/// unicode scalar values, the one whose code point is the value.
#[verifier::external_body]
fn char_from_u32(v: u32) -> (r: Option<char>)
    ensures
        r is Some <==> is_scalar(v),
        r matches Some(c) ==> c as u32 == v,
{
    char::from_u32(v)
}

/// Reads the character of a hexadecimal code point, such as `e88e`.
pub fn parse_unicode(input: &str) -> (r: Result<char, UnicodeError>)
    ensures
        match r {
            Ok(c) => hex_u32_spec(input@) == Some(c as u32),
            Err(UnicodeError::Int(_)) => hex_u32_spec(input@) is None,
            Err(UnicodeError::Unicode(v)) => hex_u32_spec(input@) == Some(v) && !is_scalar(v),
        },
{
    let unicode = match u32_from_hex(input) {
        Ok(v) => v,
        Err(e) => return Err(UnicodeError::Int(e)),
    };
    match char_from_u32(unicode) {
        Some(c) => Ok(c),
        None => Err(UnicodeError::Unicode(unicode)),
    }
}

} // verus!
