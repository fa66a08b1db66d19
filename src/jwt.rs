//! The claims of a JSON Web Token and the expiry durations they are issued
//! with ("14d", "1h", "30m", "3600").

use vstd::prelude::*;
use vstd::string::StrSliceExecFns;

use crate::strings::{lowercased, to_lowercase, trim, trimmed};

verus! {

/// Why an expiry duration could not be read.
#[derive(Debug, Clone, Copy, PartialEq, Eq, Structural)]
pub enum DurationError {
    /// There are no digits, or their number does not fit in 64 bits.
    InvalidNumber,
    /// What is left besides the digits is not a known unit.
    InvalidUnit,
    /// The duration in seconds does not fit in 64 bits.
    Overflow,
}

pub open spec fn is_ascii_digit(c: char) -> bool {
    '0' <= c <= '9'
}

/// The value of a string of decimal digits.
pub open spec fn decimal_value(digits: Seq<char>) -> nat
    decreases digits.len(),
{
    if digits.len() == 0 {
        0
    } else {
        decimal_value(digits.drop_last()) * 10 + ((digits.last() as nat) - ('0' as nat)) as nat
    }
}

/// The digits of `text`, in order.
pub open spec fn digits_of(text: Seq<char>) -> Seq<char> {
    text.filter(|c: char| is_ascii_digit(c))
}

/// The characters of `text` that are not digits, in order.
pub open spec fn unit_of(text: Seq<char>) -> Seq<char> {
    text.filter(|c: char| !is_ascii_digit(c))
}

/// The seconds in one of a unit: days, hours, minutes, or seconds when
/// there is no unit.
pub open spec fn unit_seconds(unit: Seq<char>) -> Option<nat> {
    if unit == "d"@ {
        Some(86400)
    } else if unit == "h"@ {
        Some(3600)
    } else if unit == "m"@ {
        Some(60)
    } else if unit.len() == 0 {
        Some(1)
    } else {
        None
    }
}

/// The duration in seconds written in `text`: its digits, read in order, are
/// the number; its other characters, in order, the unit.
pub open spec fn duration_spec(text: Seq<char>) -> Result<u64, DurationError> {
    let digits = digits_of(text);
    let unit = unit_of(text);
    if digits.len() == 0 || decimal_value(digits) > u64::MAX {
        Err(DurationError::InvalidNumber)
    } else {
        match unit_seconds(unit) {
            None => Err(DurationError::InvalidUnit),
            Some(k) => if decimal_value(digits) * k > u64::MAX {
                Err(DurationError::Overflow)
            } else {
                Ok((decimal_value(digits) * k) as u64)
            },
        }
    }
}

/// Reads a duration in seconds from text that is already trimmed and in
/// lower case.
pub fn duration_seconds(text: &str) -> (r: Result<u64, DurationError>)
    ensures
        r == duration_spec(text@),
{
    let n = text.unicode_len();
    let mut value: u64 = 0;
    let mut too_big = false;
    let mut digit_count: usize = 0;
    let mut unit_len: usize = 0;
    let mut unit_first: char = ' ';
    let mut i: usize = 0;
    while i < n
        invariant
            n == text@.len(),
            i <= n,
            digit_count == digits_of(text@.subrange(0, i as int)).len(),
            unit_len == unit_of(text@.subrange(0, i as int)).len(),
            unit_len > 0 ==> unit_first == unit_of(text@.subrange(0, i as int))[0],
            !too_big ==> value == decimal_value(digits_of(text@.subrange(0, i as int))),
            too_big ==> decimal_value(digits_of(text@.subrange(0, i as int))) > u64::MAX,
        decreases n - i,
    {
        let c = text.get_char(i);
        let ghost before = text@.subrange(0, i as int);
        proof {
            assert(text@.subrange(0, i + 1) =~= before.push(c));
            before.lemma_filter_push(c, |c: char| is_ascii_digit(c));
            before.lemma_filter_push(c, |c: char| !is_ascii_digit(c));
            before.lemma_filter_len(|c: char| is_ascii_digit(c));
            before.lemma_filter_len(|c: char| !is_ascii_digit(c));
        }
        if '0' <= c && c <= '9' {
            let ghost digits = digits_of(before);
            assert(digits_of(text@.subrange(0, i + 1)) == digits.push(c));
            assert(digits.push(c).drop_last() =~= digits);
            let d = (c as u32 - '0' as u32) as u64;
            if !too_big {
                match value.checked_mul(10) {
                    Some(v) => match v.checked_add(d) {
                        Some(w) => value = w,
                        None => too_big = true,
                    },
                    None => too_big = true,
                }
            }
            digit_count = digit_count + 1;
        } else {
            if unit_len == 0 {
                unit_first = c;
            }
            unit_len = unit_len + 1;
        }
        i = i + 1;
    }
    assert(text@.subrange(0, n as int) =~= text@);
    let ghost unit = unit_of(text@);
    proof {
        reveal_strlit("d");
        reveal_strlit("h");
        reveal_strlit("m");
    }
    if digit_count == 0 || too_big {
        return Err(DurationError::InvalidNumber);
    }
    let factor: u64 = if unit_len == 0 {
        1
    } else if unit_len == 1 && unit_first == 'd' {
        assert(unit =~= "d"@);
        86400
    } else if unit_len == 1 && unit_first == 'h' {
        assert(unit =~= "h"@);
        3600
    } else if unit_len == 1 && unit_first == 'm' {
        assert(unit =~= "m"@);
        60
    } else {
        assert(unit != "d"@ && unit != "h"@ && unit != "m"@);
        return Err(DurationError::InvalidUnit);
    };
    match value.checked_mul(factor) {
        Some(v) => Ok(v),
        None => Err(DurationError::Overflow),
    }
}

/// Reads an expiry duration in seconds, ignoring surrounding white space and
/// the case of the unit.
pub fn parse_exp_duration(exp: &str) -> (r: Result<u64, DurationError>)
    ensures
        r == duration_spec(lowercased(trimmed(exp@))),
{
    let exp = trim(exp);
    let exp = to_lowercase(exp);
    duration_seconds(exp.as_str())
}

/// The claims of a token: audience, subject, and the times (in seconds
/// since the Unix epoch) it was issued at and expires at.
pub struct JwtClaims {
    pub aud: String,
    pub sub: String,
    pub iat: u64,
    pub exp: u64,
}

impl JwtClaims {
    /// The claims of a token issued at `now` for `aud` and `sub`, which
    /// expires after the duration written in `exp`.
    pub fn issue(aud: &str, sub: &str, now: u64, exp: &str) -> (r: Result<JwtClaims, DurationError>)
        ensures
            match duration_spec(lowercased(trimmed(exp@))) {
                Ok(d) => if now + d > u64::MAX {
                    r == Err::<JwtClaims, DurationError>(DurationError::Overflow)
                } else {
                    r matches Ok(c) && c.aud@ == aud@ && c.sub@ == sub@ && c.iat == now && c.exp
                        == now + d
                },
                Err(e) => r == Err::<JwtClaims, DurationError>(e),
            },
    {
        let duration = parse_exp_duration(exp)?;
        match now.checked_add(duration) {
            Some(expires) => Ok(JwtClaims { aud: aud.to_owned(), sub: sub.to_owned(), iat: now, exp: expires }),
            None => Err(DurationError::Overflow),
        }
    }
}

} // verus!
