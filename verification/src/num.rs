//! Decimal integers read from text, with the refusals that `str::parse`
//! gives for integer types.
use vstd::prelude::*;

verus! {

/// Why a text is not an integer of the asked range.
#[derive(Clone, Copy, Debug, PartialEq, Eq, Structural)]
pub enum IntParseError {
    /// The text is empty.
    Empty,
    /// A character is not a digit (a lone sign counts as one).
    InvalidDigit,
    /// The value is above the range.
    PosOverflow,
    /// The value is below the range.
    NegOverflow,
}

/// The text of each refusal.
pub open spec fn int_error_text(e: IntParseError) -> Seq<char> {
    match e {
        IntParseError::Empty => "cannot parse integer from empty string"@,
        IntParseError::InvalidDigit => "invalid digit found in string"@,
        IntParseError::PosOverflow => "number too large to fit in target type"@,
        IntParseError::NegOverflow => "number too small to fit in target type"@,
    }
}

/// The text of a refusal.
pub fn int_error_message(e: IntParseError) -> (s: String)
    ensures
        s@ == int_error_text(e),
{
    match e {
        IntParseError::Empty => "cannot parse integer from empty string".to_owned(),
        IntParseError::InvalidDigit => "invalid digit found in string".to_owned(),
        IntParseError::PosOverflow => "number too large to fit in target type".to_owned(),
        IntParseError::NegOverflow => "number too small to fit in target type".to_owned(),
    }
}

/// `c` is an ASCII digit.
pub open spec fn is_ascii_digit(c: char) -> bool {
    48 <= (c as int) <= 57
}

/// The value of the ASCII digit `c`.
pub open spec fn digit_value(c: char) -> int {
    (c as int) - 48
}

/// Reading the digits `s[i..]` onto the value `acc` read so far, which
/// grows away from zero (down when `neg`); the first problem met, left to
/// right, is the refusal.
pub open spec fn scan_digits(s: Seq<char>, i: int, acc: int, neg: bool, lo: int, hi: int) -> Result<
    int,
    IntParseError,
>
    decreases s.len() - i,
{
    if i < 0 || i >= s.len() {
        Ok(acc)
    } else if !is_ascii_digit(s[i]) {
        Err(IntParseError::InvalidDigit)
    } else if !neg && acc * 10 + digit_value(s[i]) > hi {
        Err(IntParseError::PosOverflow)
    } else if neg && acc * 10 - digit_value(s[i]) < lo {
        Err(IntParseError::NegOverflow)
    } else if neg {
        scan_digits(s, i + 1, acc * 10 - digit_value(s[i]), neg, lo, hi)
    } else {
        scan_digits(s, i + 1, acc * 10 + digit_value(s[i]), neg, lo, hi)
    }
}

/// The integer in `lo..=hi` that `s` spells in decimal, with an optional
/// leading `+` (or `-`, when `signed`), or the refusal.
pub open spec fn parse_decimal(s: Seq<char>, signed: bool, lo: int, hi: int) -> Result<
    int,
    IntParseError,
> {
    if s.len() == 0 {
        Err(IntParseError::Empty)
    } else if (s[0] == '+' || s[0] == '-') && s.len() == 1 {
        Err(IntParseError::InvalidDigit)
    } else if s[0] == '+' {
        scan_digits(s, 1, 0, false, lo, hi)
    } else if s[0] == '-' && signed {
        scan_digits(s, 1, 0, true, lo, hi)
    } else {
        scan_digits(s, 0, 0, false, lo, hi)
    }
}

/// Reads a decimal integer in `lo..=hi` from `s`.
fn parse_in_range(s: &str, signed: bool, lo: i128, hi: i128) -> (r: Result<i128, IntParseError>)
    requires
        -0x1_0000_0000_0000_0000_0000 <= lo <= 0 <= hi <= 0x1_0000_0000_0000_0000_0000,
    ensures
        match parse_decimal(s@, signed, lo as int, hi as int) {
            Ok(v) => r matches Ok(x) && x == v,
            Err(e) => r == Err::<i128, IntParseError>(e),
        },
        r matches Ok(v) ==> lo <= v <= hi,
{
    let c = crate::text::chars_of(s);
    let n = c.len();
    if n == 0 {
        return Err(IntParseError::Empty);
    }
    if (c[0] == '+' || c[0] == '-') && n == 1 {
        return Err(IntParseError::InvalidDigit);
    }
    let mut i: usize = 0;
    let mut neg = false;
    if c[0] == '+' {
        i = 1;
    } else if c[0] == '-' && signed {
        i = 1;
        neg = true;
    }
    let ghost start = i as int;
    let mut acc: i128 = 0;
    assert(parse_decimal(s@, signed, lo as int, hi as int) == scan_digits(
        c@,
        start,
        0,
        neg,
        lo as int,
        hi as int,
    ));
    while i < n
        invariant
            c@ == s@,
            n == c.len(),
            i <= n,
            lo <= acc <= hi,
            !neg ==> acc >= 0,
            neg ==> acc <= 0,
            -0x1_0000_0000_0000_0000_0000 <= lo <= 0 <= hi <= 0x1_0000_0000_0000_0000_0000,
            parse_decimal(s@, signed, lo as int, hi as int) == scan_digits(
                c@,
                i as int,
                acc as int,
                neg,
                lo as int,
                hi as int,
            ),
        decreases n - i,
    {
        let ch = c[i];
        if !('0' <= ch && ch <= '9') {
            return Err(IntParseError::InvalidDigit);
        }
        let d: i128 = (ch as u32 - 48) as i128;
        assert(d == digit_value(c@[i as int]));
        if !neg {
            if acc * 10 + d > hi {
                return Err(IntParseError::PosOverflow);
            }
            acc = acc * 10 + d;
        } else {
            if acc * 10 - d < lo {
                return Err(IntParseError::NegOverflow);
            }
            acc = acc * 10 - d;
        }
        i = i + 1;
    }
    Ok(acc)
}

/// `str::parse::<i64>`.
pub fn parse_i64(s: &str) -> (r: Result<i64, IntParseError>)
    ensures
        match parse_decimal(s@, true, i64::MIN as int, i64::MAX as int) {
            Ok(v) => r matches Ok(x) && x == v,
            Err(e) => r == Err::<i64, IntParseError>(e),
        },
{
    match parse_in_range(s, true, i64::MIN as i128, i64::MAX as i128) {
        Ok(v) => Ok(v as i64),
        Err(e) => Err(e),
    }
}

/// `str::parse::<u32>`.
pub fn parse_u32(s: &str) -> (r: Result<u32, IntParseError>)
    ensures
        match parse_decimal(s@, false, 0, u32::MAX as int) {
            Ok(v) => r matches Ok(x) && x == v,
            Err(e) => r == Err::<u32, IntParseError>(e),
        },
{
    match parse_in_range(s, false, 0, u32::MAX as i128) {
        Ok(v) => Ok(v as u32),
        Err(e) => Err(e),
    }
}

/// `str::parse::<u64>`.
pub fn parse_u64(s: &str) -> (r: Result<u64, IntParseError>)
    ensures
        match parse_decimal(s@, false, 0, u64::MAX as int) {
            Ok(v) => r matches Ok(x) && x == v,
            Err(e) => r == Err::<u64, IntParseError>(e),
        },
{
    match parse_in_range(s, false, 0, u64::MAX as i128) {
        Ok(v) => Ok(v as u64),
        Err(e) => Err(e),
    }
}

/// `str::parse::<bool>`: `true` and `false` only.
pub fn parse_bool(s: &str) -> (r: Option<bool>)
    ensures
        r == (if s@ == "true"@ {
            Some(true)
        } else if s@ == "false"@ {
            Some(false)
        } else {
            None::<bool>
        }),
{
    let c = crate::text::chars_of(s);
    if crate::text::chars_eq(&c, &crate::text::chars_of("true")) {
        Some(true)
    } else if crate::text::chars_eq(&c, &crate::text::chars_of("false")) {
        Some(false)
    } else {
        None
    }
}

} // verus!
