//! Decimal integer parsing for token values, with the exact left-to-right
//! error discipline a caller of std's integer parsing observes: the first
//! offending character decides between an invalid digit and an overflow.

use vstd::prelude::*;
use vstd::string::StrSliceExecFns;

use crate::errors::IntErrorKind;

verus! {

/// Whether `c` is a decimal digit.
pub open spec fn is_dec_digit(c: char) -> bool {
    48 <= c as u32 <= 57
}

/// Numeric value of a decimal digit.
pub open spec fn digit_val(c: char) -> int {
    c as u32 - 48
}

/// Scan a run of digits left to right, accumulating onto `acc`, capped at
/// `max`. Stops with `InvalidDigit` at the first non-digit and with
/// `PosOverflow` at the first digit that pushes the value past `max`,
/// whichever comes first.
pub open spec fn dec_scan(s: Seq<char>, acc: int, max: int) -> Result<int, IntErrorKind>
    decreases s.len(),
{
    if s.len() == 0 {
        Ok(acc)
    } else if !is_dec_digit(s[0]) {
        Err(IntErrorKind::InvalidDigit)
    } else if acc * 10 + digit_val(s[0]) > max {
        Err(IntErrorKind::PosOverflow)
    } else {
        dec_scan(s.drop_first(), acc * 10 + digit_val(s[0]), max)
    }
}

/// What parsing `s` as a `u64` yields: an optional leading `+`, then at least
/// one digit, with the value at most `u64::MAX`.
pub open spec fn u64_parse(s: Seq<char>) -> Result<u64, IntErrorKind> {
    if s.len() == 0 {
        Err(IntErrorKind::Empty)
    } else {
        let d = if s[0] == '+' {
            s.drop_first()
        } else {
            s
        };
        if d.len() == 0 {
            Err(IntErrorKind::InvalidDigit)
        } else {
            match dec_scan(d, 0, u64::MAX as int) {
                Ok(v) => Ok(v as u64),
                Err(k) => Err(k),
            }
        }
    }
}

/// What parsing `s` as an `i32` yields: an optional leading `+` or `-`, then
/// at least one digit, with the magnitude within the signed 32-bit range. A
/// magnitude past the range surfaces as an overflow towards the signed value's
/// side.
pub open spec fn i32_parse(s: Seq<char>) -> Result<i32, IntErrorKind> {
    if s.len() == 0 {
        Err(IntErrorKind::Empty)
    } else {
        let neg = s[0] == '-';
        let d = if s[0] == '-' || s[0] == '+' {
            s.drop_first()
        } else {
            s
        };
        if d.len() == 0 {
            Err(IntErrorKind::InvalidDigit)
        } else if neg {
            match dec_scan(d, 0, 0x8000_0000) {
                Ok(v) => Ok((-v) as i32),
                Err(IntErrorKind::PosOverflow) => Err(IntErrorKind::NegOverflow),
                Err(k) => Err(k),
            }
        } else {
            match dec_scan(d, 0, i32::MAX as int) {
                Ok(v) => Ok(v as i32),
                Err(k) => Err(k),
            }
        }
    }
}

/// Whether `c` is a decimal digit.
fn is_digit_char(c: char) -> (r: bool)
    ensures
        r == is_dec_digit(c),
{
    let u = c as u32;
    48 <= u && u <= 57
}

/// Scan the digits of `s` from position `from` to the end, as `dec_scan`
/// describes, starting from zero and capped at `max`.
fn scan_digits(s: &str, from: usize, max: u64) -> (r: Result<u64, IntErrorKind>)
    requires
        from <= s@.len(),
    ensures
        ({
            let d = s@.subrange(from as int, s@.len() as int);
            match r {
                Ok(v) => v <= max && dec_scan(d, 0, max as int) == Ok::<int, IntErrorKind>(v as int),
                Err(k) => dec_scan(d, 0, max as int) == Err::<int, IntErrorKind>(k),
            }
        }),
{
    let n = s.unicode_len();
    let ghost d = s@.subrange(from as int, s@.len() as int);
    let mut acc: u64 = 0;
    let mut i: usize = from;
    while i < n
        invariant
            n == s@.len(),
            from <= i <= n,
            acc <= max,
            d == s@.subrange(from as int, s@.len() as int),
            dec_scan(d, 0, max as int) == dec_scan(
                s@.subrange(i as int, s@.len() as int),
                acc as int,
                max as int,
            ),
        decreases n - i,
    {
        let ghost rest = s@.subrange(i as int, s@.len() as int);
        let c = s.get_char(i);
        proof {
            assert(rest[0] == s@[i as int]);
            assert(rest.drop_first() =~= s@.subrange(i as int + 1, s@.len() as int));
        }
        if !is_digit_char(c) {
            return Err(IntErrorKind::InvalidDigit);
        }
        let dig: u64 = (c as u32 - 48) as u64;
        let wide: u128 = acc as u128 * 10 + dig as u128;
        if wide > max as u128 {
            return Err(IntErrorKind::PosOverflow);
        }
        acc = wide as u64;
        i += 1;
    }
    proof {
        assert(s@.subrange(i as int, s@.len() as int).len() == 0);
    }
    Ok(acc)
}

/// Parse `s` as a `u64`, exactly as `u64_parse` describes.
pub fn parse_u64(s: &str) -> (r: Result<u64, IntErrorKind>)
    ensures
        r == u64_parse(s@),
{
    let n = s.unicode_len();
    if n == 0 {
        return Err(IntErrorKind::Empty);
    }
    let first = s.get_char(0);
    let from: usize = if first == '+' {
        1
    } else {
        0
    };
    proof {
        if first == '+' {
            assert(s@.drop_first() =~= s@.subrange(1, s@.len() as int));
        } else {
            assert(s@ =~= s@.subrange(0, s@.len() as int));
        }
    }
    if from == n {
        return Err(IntErrorKind::InvalidDigit);
    }
    match scan_digits(s, from, u64::MAX) {
        Ok(v) => Ok(v),
        Err(k) => Err(k),
    }
}

/// Parse `s` as an `i32`, exactly as `i32_parse` describes.
pub fn parse_i32(s: &str) -> (r: Result<i32, IntErrorKind>)
    ensures
        r == i32_parse(s@),
{
    let n = s.unicode_len();
    if n == 0 {
        return Err(IntErrorKind::Empty);
    }
    let first = s.get_char(0);
    let neg = first == '-';
    let from: usize = if first == '-' || first == '+' {
        1
    } else {
        0
    };
    proof {
        if first == '-' || first == '+' {
            assert(s@.drop_first() =~= s@.subrange(1, s@.len() as int));
        } else {
            assert(s@ =~= s@.subrange(0, s@.len() as int));
        }
    }
    if from == n {
        return Err(IntErrorKind::InvalidDigit);
    }
    if neg {
        match scan_digits(s, from, 0x8000_0000) {
            Ok(v) => {
                let w: i64 = -(v as i64);
                Ok(w as i32)
            },
            Err(IntErrorKind::PosOverflow) => Err(IntErrorKind::NegOverflow),
            Err(k) => Err(k),
        }
    } else {
        match scan_digits(s, from, 0x7fff_ffff) {
            Ok(v) => Ok(v as i32),
            Err(k) => Err(k),
        }
    }
}

} // verus!
