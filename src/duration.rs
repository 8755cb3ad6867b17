//! Durations written as a decimal number followed by a unit: `m` for
//! minutes, `h` for hours, `d` for days (`"5m"`, `"42h"`, `"1d"`).
use vstd::prelude::*;
use vstd::string::StringSliceAdditionalSpecFns;

verus! {

/// Why a duration could not be read.
#[derive(Debug, Clone, Copy, PartialEq, Eq, Structural)]
pub enum DurationError {
    /// The text does not open with a number that fits an `i64`.
    InvalidNumber,
    /// What follows the number is not one of the units.
    InvalidTimeUnit,
    /// The duration in minutes does not fit an `i64`.
    TooLong,
}

/// Whether `b` is the ASCII code of a decimal digit.
pub open spec fn is_ascii_digit(b: u8) -> bool {
    48 <= b <= 57
}

/// Length of the run of decimal digits that opens `b`.
pub open spec fn digit_run(b: Seq<u8>) -> nat
    decreases b.len(),
{
    if b.len() > 0 && is_ascii_digit(b[0]) {
        1 + digit_run(b.drop_first())
    } else {
        0
    }
}

/// Value of the decimal digits `d`, most significant first.
pub open spec fn decimal_value(d: Seq<u8>) -> int
    decreases d.len(),
{
    if d.len() == 0 {
        0
    } else {
        decimal_value(d.drop_last()) * 10 + (d.last() - 48)
    }
}

/// Minutes in one of the unit written `u`.
pub open spec fn unit_minutes(u: Seq<u8>) -> Option<int> {
    if u == seq![109u8] {
        Some(1)
    } else if u == seq![104u8] {
        Some(60)
    } else if u == seq![100u8] {
        Some(1440)
    } else {
        None
    }
}

/// The minutes that the UTF-8 text `b` denotes, or why it denotes none.
pub open spec fn duration_minutes_of(b: Seq<u8>) -> Result<u64, DurationError> {
    let n = digit_run(b);
    let value = decimal_value(b.subrange(0, n as int));
    if n == 0 || value > i64::MAX {
        Err(DurationError::InvalidNumber)
    } else {
        match unit_minutes(b.subrange(n as int, b.len() as int)) {
            None => Err(DurationError::InvalidTimeUnit),
            Some(f) => if value * f > i64::MAX {
                Err(DurationError::TooLong)
            } else {
                Ok((value * f) as u64)
            },
        }
    }
}

proof fn lemma_digit_run_step(b: Seq<u8>, i: int)
    requires
        0 <= i < b.len(),
        is_ascii_digit(b[i]),
    ensures
        digit_run(b.subrange(i, b.len() as int)) == 1 + digit_run(b.subrange(i + 1, b.len() as int)),
{
    assert(b.subrange(i, b.len() as int).drop_first() =~= b.subrange(i + 1, b.len() as int));
}

proof fn lemma_decimal_value_prefix(d: Seq<u8>, k: int)
    requires
        0 <= k <= d.len(),
        forall|j: int| 0 <= j < d.len() ==> is_ascii_digit(#[trigger] d[j]),
    ensures
        0 <= decimal_value(d.subrange(0, k)) <= decimal_value(d),
    decreases d.len(),
{
    if k == d.len() {
        assert(d.subrange(0, k) =~= d);
        if d.len() > 0 {
            lemma_decimal_value_prefix(d.drop_last(), 0);
        }
    } else {
        let rest = d.drop_last();
        assert(d.subrange(0, k) =~= rest.subrange(0, k));
        lemma_decimal_value_prefix(rest, k);
    }
}

/// Reads a duration written as a decimal number followed by `m`, `h` or `d`,
/// and returns it in minutes. Fails with `InvalidNumber` when the text does
/// not open with a digit or its number does not fit an `i64`, with
/// `InvalidTimeUnit` when anything but exactly one of the units follows, and
/// with `TooLong` when the minutes do not fit an `i64`.
pub fn parse_duration(s: &str) -> (r: Result<u64, DurationError>)
    ensures
        r == duration_minutes_of(s.spec_bytes()),
{
    let b = s.as_bytes();
    let len = b.len();
    let ghost bs = b@;
    let mut n: usize = 0;
    assert(bs.subrange(0, len as int) =~= bs);
    while n < len && b[n] >= 48 && b[n] <= 57
        invariant
            bs == b@,
            bs == s.spec_bytes(),
            len == bs.len(),
            n <= len,
            digit_run(bs) == n + digit_run(bs.subrange(n as int, len as int)),
            forall|j: int| 0 <= j < n ==> is_ascii_digit(#[trigger] bs[j]),
        decreases len - n,
    {
        proof {
            lemma_digit_run_step(bs, n as int);
        }
        n = n + 1;
    }
    assert(digit_run(bs.subrange(n as int, len as int)) == 0);
    assert(bs.subrange(0, len as int) =~= bs);
    if n == 0 {
        return Err(DurationError::InvalidNumber);
    }
    let ghost digits = bs.subrange(0, n as int);
    let mut value: u64 = 0;
    let mut k: usize = 0;
    while k < n
        invariant
            bs == b@,
            bs == s.spec_bytes(),
            len == bs.len(),
            digit_run(bs) == n,
            0 < n <= len,
            k <= n,
            digits == bs.subrange(0, n as int),
            forall|j: int| 0 <= j < n ==> is_ascii_digit(#[trigger] bs[j]),
            value == decimal_value(digits.subrange(0, k as int)),
            value <= i64::MAX,
        decreases n - k,
    {
        let digit = (b[k] - 48) as u64;
        assert(digits.subrange(0, k + 1).drop_last() =~= digits.subrange(0, k as int));
        assert(decimal_value(digits.subrange(0, k + 1)) == value * 10 + digit);
        if value > (i64::MAX as u64 - digit) / 10 {
            proof {
                assert forall|j: int| 0 <= j < digits.len() implies is_ascii_digit(
                    #[trigger] digits[j],
                ) by {
                    assert(digits[j] == bs[j]);
                }
                lemma_decimal_value_prefix(digits, k + 1);
                assert(value * 10 + digit > i64::MAX) by (nonlinear_arith)
                    requires
                        value > (i64::MAX as u64 - digit) / 10,
                        digit <= 9,
                ;
            }
            return Err(DurationError::InvalidNumber);
        }
        value = value * 10 + digit;
        k = k + 1;
    }
    assert(digits.subrange(0, n as int) =~= digits);
    let factor: u64 = if len - n != 1 {
        0
    } else if b[n] == 109 {
        1
    } else if b[n] == 104 {
        60
    } else if b[n] == 100 {
        1440
    } else {
        0
    };
    let ghost unit = bs.subrange(n as int, len as int);
    assert(unit.len() == 1 ==> unit =~= seq![bs[n as int]]);
    if factor == 0 {
        return Err(DurationError::InvalidTimeUnit);
    }
    if value > (i64::MAX as u64) / factor {
        assert(value * factor > i64::MAX) by (nonlinear_arith)
            requires
                value > (i64::MAX as u64) / factor,
                factor > 0,
        ;
        return Err(DurationError::TooLong);
    }
    assert(value * factor <= i64::MAX) by (nonlinear_arith)
        requires
            value <= (i64::MAX as u64) / factor,
            factor > 0,
    ;
    Ok(value * factor)
}

} // verus!
