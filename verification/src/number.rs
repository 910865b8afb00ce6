//! Decimal integer parsing with the semantics of std's `FromStr` for the
//! primitive integer types: an optional `+` (or, for signed types, `-`)
//! followed by ASCII digits, read left to right, failing at the first
//! character that is not a digit or the first digit that leaves the range.
use vstd::prelude::*;
use crate::text::chars_of;

verus! {

/// Why a string is not an integer of the requested type.
#[derive(Debug, Clone, Copy, PartialEq, Eq, Structural)]
pub enum IntErrorKind {
    /// The string is empty.
    Empty,
    /// A character that is not a decimal digit, or a lone sign.
    InvalidDigit,
    /// The value is larger than the type's maximum.
    PosOverflow,
    /// The value is smaller than the type's minimum.
    NegOverflow,
}

/// What std's `ParseIntError` displays for `kind`.
pub open spec fn int_error_message(kind: IntErrorKind) -> Seq<char> {
    match kind {
        IntErrorKind::Empty => "cannot parse integer from empty string"@,
        IntErrorKind::InvalidDigit => "invalid digit found in string"@,
        IntErrorKind::PosOverflow => "number too large to fit in target type"@,
        IntErrorKind::NegOverflow => "number too small to fit in target type"@,
    }
}

impl IntErrorKind {
    /// The message std's `ParseIntError` displays for this kind.
    pub fn message(self) -> (m: String)
        ensures
            m@ == int_error_message(self),
    {
        match self {
            IntErrorKind::Empty => "cannot parse integer from empty string".to_owned(),
            IntErrorKind::InvalidDigit => "invalid digit found in string".to_owned(),
            IntErrorKind::PosOverflow => "number too large to fit in target type".to_owned(),
            IntErrorKind::NegOverflow => "number too small to fit in target type".to_owned(),
        }
    }
}

pub open spec fn is_digit(c: char) -> bool {
    '0' <= c && c <= '9'
}

pub open spec fn digit_value(c: char) -> int {
    c as int - '0' as int
}

/// Reads the digits of `s` onto `acc`, growing upward, failing above `max`.
pub open spec fn scan_up(s: Seq<char>, acc: int, max: int) -> Result<int, IntErrorKind>
    decreases s.len(),
{
    if s.len() == 0 {
        Ok(acc)
    } else if !is_digit(s[0]) {
        Err(IntErrorKind::InvalidDigit)
    } else if acc * 10 + digit_value(s[0]) > max {
        Err(IntErrorKind::PosOverflow)
    } else {
        scan_up(s.drop_first(), acc * 10 + digit_value(s[0]), max)
    }
}

/// Reads the digits of `s` onto `acc`, growing downward, failing below `min`.
pub open spec fn scan_down(s: Seq<char>, acc: int, min: int) -> Result<int, IntErrorKind>
    decreases s.len(),
{
    if s.len() == 0 {
        Ok(acc)
    } else if !is_digit(s[0]) {
        Err(IntErrorKind::InvalidDigit)
    } else if acc * 10 - digit_value(s[0]) < min {
        Err(IntErrorKind::NegOverflow)
    } else {
        scan_down(s.drop_first(), acc * 10 - digit_value(s[0]), min)
    }
}

/// The result of parsing `s` as an integer of the type whose range is
/// `min..=max`; a `-` sign is accepted only when `min` is negative.
pub open spec fn spec_parse_int(s: Seq<char>, min: int, max: int) -> Result<int, IntErrorKind> {
    if s.len() == 0 {
        Err(IntErrorKind::Empty)
    } else if s.len() == 1 && (s[0] == '+' || s[0] == '-') {
        Err(IntErrorKind::InvalidDigit)
    } else if s[0] == '+' {
        scan_up(s.drop_first(), 0, max)
    } else if s[0] == '-' && min < 0 {
        scan_down(s.drop_first(), 0, min)
    } else {
        scan_up(s, 0, max)
    }
}

/// Parses `s` within `min..=max`; the bounds cover every primitive integer
/// type up to 64 bits.
fn parse_in_range(s: &str, min: i128, max: i128) -> (r: Result<i128, IntErrorKind>)
    requires
        -0x8000_0000_0000_0000 <= min <= 0,
        0 < max <= 0xffff_ffff_ffff_ffff,
    ensures
        r matches Ok(v) ==> spec_parse_int(s@, min as int, max as int) == Ok::<int, IntErrorKind>(v as int),
        r matches Err(e) ==> spec_parse_int(s@, min as int, max as int) == Err::<int, IntErrorKind>(e),
        r matches Ok(v) ==> min <= v <= max,
{
    let cs = chars_of(s);
    let n = cs.len();
    if n == 0 {
        return Err(IntErrorKind::Empty);
    }
    if n == 1 && (cs[0] == '+' || cs[0] == '-') {
        return Err(IntErrorKind::InvalidDigit);
    }
    let down = cs[0] == '-' && min < 0;
    let start: usize = if cs[0] == '+' || down { 1 } else { 0 };
    let ghost total = if down {
        scan_down(cs@.subrange(start as int, n as int), 0, min as int)
    } else {
        scan_up(cs@.subrange(start as int, n as int), 0, max as int)
    };
    proof {
        assert(cs@.drop_first() =~= cs@.subrange(1, n as int));
        assert(cs@ =~= cs@.subrange(0, n as int));
        assert(total == spec_parse_int(s@, min as int, max as int));
    }
    let mut acc: i128 = 0;
    let mut k: usize = start;
    while k < n
        invariant
            start <= k <= n,
            n == cs@.len(),
            -0x8000_0000_0000_0000 <= min <= 0,
            0 < max <= 0xffff_ffff_ffff_ffff,
            min <= acc <= max,
            total == spec_parse_int(s@, min as int, max as int),
            down ==> acc <= 0,
            !down ==> acc >= 0,
            down ==> total == scan_down(cs@.subrange(k as int, n as int), acc as int, min as int),
            !down ==> total == scan_up(cs@.subrange(k as int, n as int), acc as int, max as int),
        decreases n - k,
    {
        let c = cs[k];
        proof {
            assert(cs@.subrange(k as int, n as int).drop_first() =~= cs@.subrange(k + 1, n as int));
            assert(cs@.subrange(k as int, n as int)[0] == c);
        }
        if !('0' <= c && c <= '9') {
            return Err(IntErrorKind::InvalidDigit);
        }
        let d = (c as u32 - '0' as u32) as i128;
        if down {
            let next = acc * 10 - d;
            if next < min {
                return Err(IntErrorKind::NegOverflow);
            }
            acc = next;
        } else {
            let next = acc * 10 + d;
            if next > max {
                return Err(IntErrorKind::PosOverflow);
            }
            acc = next;
        }
        k = k + 1;
    }
    proof {
        let empty = cs@.subrange(n as int, n as int);
        assert(empty.len() == 0);
    }
    Ok(acc)
}

/// `s.parse::<i64>()`.
pub fn parse_i64(s: &str) -> (r: Result<i64, IntErrorKind>)
    ensures
        r matches Ok(v) ==> spec_parse_int(s@, i64::MIN as int, i64::MAX as int) == Ok::<int, IntErrorKind>(v as int),
        r matches Err(e) ==> spec_parse_int(s@, i64::MIN as int, i64::MAX as int) == Err::<int, IntErrorKind>(e),
{
    match parse_in_range(s, i64::MIN as i128, i64::MAX as i128) {
        Ok(v) => Ok(v as i64),
        Err(e) => Err(e),
    }
}

/// `s.parse::<u64>()`.
pub fn parse_u64(s: &str) -> (r: Result<u64, IntErrorKind>)
    ensures
        r matches Ok(v) ==> spec_parse_int(s@, 0, u64::MAX as int) == Ok::<int, IntErrorKind>(v as int),
        r matches Err(e) ==> spec_parse_int(s@, 0, u64::MAX as int) == Err::<int, IntErrorKind>(e),
{
    match parse_in_range(s, 0, u64::MAX as i128) {
        Ok(v) => Ok(v as u64),
        Err(e) => Err(e),
    }
}

/// `s.parse::<u32>()`.
pub fn parse_u32(s: &str) -> (r: Result<u32, IntErrorKind>)
    ensures
        r matches Ok(v) ==> spec_parse_int(s@, 0, u32::MAX as int) == Ok::<int, IntErrorKind>(v as int),
        r matches Err(e) ==> spec_parse_int(s@, 0, u32::MAX as int) == Err::<int, IntErrorKind>(e),
{
    match parse_in_range(s, 0, u32::MAX as i128) {
        Ok(v) => Ok(v as u32),
        Err(e) => Err(e),
    }
}

/// `s.parse::<u16>()`.
pub fn parse_u16(s: &str) -> (r: Result<u16, IntErrorKind>)
    ensures
        r matches Ok(v) ==> spec_parse_int(s@, 0, u16::MAX as int) == Ok::<int, IntErrorKind>(v as int),
        r matches Err(e) ==> spec_parse_int(s@, 0, u16::MAX as int) == Err::<int, IntErrorKind>(e),
{
    match parse_in_range(s, 0, u16::MAX as i128) {
        Ok(v) => Ok(v as u16),
        Err(e) => Err(e),
    }
}

/// `s.parse::<usize>()`.
pub fn parse_usize(s: &str) -> (r: Result<usize, IntErrorKind>)
    ensures
        r matches Ok(v) ==> spec_parse_int(s@, 0, usize::MAX as int) == Ok::<int, IntErrorKind>(v as int),
        r matches Err(e) ==> spec_parse_int(s@, 0, usize::MAX as int) == Err::<int, IntErrorKind>(e),
{
    match parse_in_range(s, 0, usize::MAX as i128) {
        Ok(v) => Ok(v as usize),
        Err(e) => Err(e),
    }
}

} // verus!
