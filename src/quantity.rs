//! Kubernetes resource quantities ("500m", "2Gi") decoded to integers.

use vstd::prelude::*;

use crate::text::{all_digits, digit_value, digits_value, is_digit};

verus! {

/// Why a quantity could not be decoded.
#[derive(Clone, Copy, Debug, PartialEq, Eq, Structural)]
pub enum QuantityError {
    /// The text is empty.
    Empty,
    /// The first character is neither a digit nor a sign.
    InvalidStart,
    /// The leading number is a bare sign or does not fit in 64 bits.
    InvalidNumber,
    /// What follows the number is not a known suffix.
    UnknownSuffix,
}

/// Index just past the run of digits that starts at `i`.
pub open spec fn digit_run_end(s: Seq<char>, i: int) -> int
    decreases s.len() - i,
{
    if 0 <= i < s.len() && is_digit(s[i]) {
        digit_run_end(s, i + 1)
    } else {
        i
    }
}

/// The leading number of a quantity: one digit or sign, then digits.
pub open spec fn number_text(s: Seq<char>) -> Seq<char> {
    s.subrange(0, digit_run_end(s, 1))
}

/// The suffix that follows the leading number.
pub open spec fn suffix_text(s: Seq<char>) -> Seq<char> {
    s.subrange(digit_run_end(s, 1), s.len() as int)
}

/// The signed value of a number text, when it is one and fits in `i64`.
pub open spec fn signed_value(t: Seq<char>) -> Option<int> {
    let neg = t[0] == '-';
    let digits = if is_digit(t[0]) { t } else { t.drop_first() };
    let v = if neg { -digits_value(digits) } else { digits_value(digits) };
    if digits.len() == 0 || v < i64::MIN || v > i64::MAX {
        None
    } else {
        Some(v)
    }
}

/// Multiplier of a suffix as a fraction `(numerator, denominator)`.
pub open spec fn suffix_scale(s: Seq<char>) -> Option<(int, int)> {
    if s.len() == 0 {
        Some((1, 1))
    } else if s =~= seq!['m'] {
        Some((1, 1000))
    } else if s =~= seq!['k'] {
        Some((1000, 1))
    } else if s =~= seq!['K', 'i'] {
        Some((1048576, 1))
    } else if s =~= seq!['M'] {
        Some((1000000, 1))
    } else if s =~= seq!['M', 'i'] {
        Some((1048576, 1))
    } else if s =~= seq!['G'] {
        Some((1000000000, 1))
    } else if s =~= seq!['G', 'i'] {
        Some((1073741824, 1))
    } else if s =~= seq!['T'] {
        Some((1000000000000, 1))
    } else if s =~= seq!['T', 'i'] {
        Some((1099511627776, 1))
    } else if s =~= seq!['P'] {
        Some((1000000000000000, 1))
    } else if s =~= seq!['P', 'i'] {
        Some((1125899906842624, 1))
    } else if s =~= seq!['E'] {
        Some((1000000000000000000, 1))
    } else if s =~= seq!['E', 'i'] {
        Some((1152921504606846976, 1))
    } else {
        None
    }
}

/// `a / b` rounded towards positive infinity, for `b > 0`.
pub open spec fn ceil_div(a: int, b: int) -> int {
    if a >= 0 {
        (a + b - 1) / b
    } else {
        -((-a) / b)
    }
}

/// `v` saturated to the range of `i64`.
pub open spec fn clamp_i64(v: int) -> int {
    if v > i64::MAX {
        i64::MAX as int
    } else if v < i64::MIN {
        i64::MIN as int
    } else {
        v
    }
}

/// What a quantity text decodes to.
pub open spec fn quantity_value(s: Seq<char>) -> Result<int, QuantityError> {
    if s.len() == 0 {
        Err(QuantityError::Empty)
    } else if !(is_digit(s[0]) || s[0] == '+' || s[0] == '-') {
        Err(QuantityError::InvalidStart)
    } else {
        match signed_value(number_text(s)) {
            None => Err(QuantityError::InvalidNumber),
            Some(n) => match suffix_scale(suffix_text(s)) {
                None => Err(QuantityError::UnknownSuffix),
                Some(scale) => Ok(clamp_i64(ceil_div(n * scale.0, scale.1))),
            },
        }
    }
}

proof fn lemma_digit_run_end_bounds(s: Seq<char>, i: int)
    requires
        0 <= i <= s.len(),
    ensures
        i <= digit_run_end(s, i) <= s.len(),
        all_digits(s.subrange(i, digit_run_end(s, i))),
        digit_run_end(s, i) < s.len() ==> !is_digit(s[digit_run_end(s, i)]),
    decreases s.len() - i,
{
    if i < s.len() && is_digit(s[i]) {
        lemma_digit_run_end_bounds(s, i + 1);
        let e = digit_run_end(s, i);
        assert forall|k: int| 0 <= k < e - i implies is_digit(#[trigger] s.subrange(i, e)[k]) by {
            if k > 0 {
                assert(s.subrange(i, e)[k] == s.subrange(i + 1, e)[k - 1]);
            }
        }
    }
}

const SATURATED: u128 = 9223372036854775809;

/// Decode the decimal digits of `s[start..end]`, saturating at `SATURATED`.
fn digits_saturating(s: &str, start: usize, end: usize) -> (r: u128)
    requires
        start <= end <= s@.len(),
        all_digits(s@.subrange(start as int, end as int)),
    ensures
        r as int == if digits_value(s@.subrange(start as int, end as int)) < SATURATED {
            digits_value(s@.subrange(start as int, end as int))
        } else {
            SATURATED as int
        },
{
    let mut acc: u128 = 0;
    let mut i: usize = start;
    while i < end
        invariant
            start <= i <= end <= s@.len(),
            all_digits(s@.subrange(start as int, end as int)),
            acc as int == if digits_value(s@.subrange(start as int, i as int)) < SATURATED {
                digits_value(s@.subrange(start as int, i as int))
            } else {
                SATURATED as int
            },
        decreases end - i,
    {
        let c = s.get_char(i);
        assert(s@.subrange(start as int, end as int)[i - start] == c);
        let d = (c as u32 - '0' as u32) as u128;
        assert(d as int == digit_value(c) && d <= 9);
        let ghost prev = s@.subrange(start as int, i as int);
        let ghost next = s@.subrange(start as int, i + 1);
        assert(next.drop_last() =~= prev);
        assert(next.last() == c);
        proof {
            lemma_digits_nonneg(prev);
        }
        assert(digits_value(next) == digits_value(prev) * 10 + d);
        if acc > SATURATED / 10 {
            acc = SATURATED;
        } else {
            acc = acc * 10 + d;
            if acc > SATURATED {
                acc = SATURATED;
            }
        }
        i = i + 1;
    }
    acc
}

proof fn lemma_digits_nonneg(s: Seq<char>)
    requires
        all_digits(s),
    ensures
        digits_value(s) >= 0,
    decreases s.len(),
{
    if s.len() > 0 {
        assert(all_digits(s.drop_last())) by {
            assert forall|i: int| 0 <= i < s.drop_last().len() implies is_digit(
                #[trigger] s.drop_last()[i],
            ) by {
                assert(s.drop_last()[i] == s[i]);
            }
        }
        lemma_digits_nonneg(s.drop_last());
        assert(is_digit(s[s.len() - 1]));
    }
}

fn is_digit_char(c: char) -> (r: bool)
    ensures
        r == is_digit(c),
{
    '0' <= c && c <= '9'
}

/// Multiplier of a suffix, when it is a known one.
fn scale_of(q: &str, start: usize) -> (r: Option<(u128, u128)>)
    requires
        start <= q@.len(),
    ensures
        match suffix_scale(q@.subrange(start as int, q@.len() as int)) {
            None => r is None,
            Some(sc) => r matches Some(p) && p.0 as int == sc.0 && p.1 as int == sc.1,
        },
        r matches Some(p) ==> 1 <= p.0 <= 1152921504606846976 && (p.1 == 1 || p.1 == 1000),
{
    let n = q.unicode_len();
    let ghost s = q@.subrange(start as int, q@.len() as int);
    if n == start {
        return Some((1, 1));
    }
    let a = q.get_char(start);
    assert(s[0] == a);
    if n == start + 1 {
        assert(s =~= seq![a]);
        if a == 'm' {
            Some((1, 1000))
        } else if a == 'k' {
            Some((1000, 1))
        } else if a == 'M' {
            Some((1000000, 1))
        } else if a == 'G' {
            Some((1000000000, 1))
        } else if a == 'T' {
            Some((1000000000000, 1))
        } else if a == 'P' {
            Some((1000000000000000, 1))
        } else if a == 'E' {
            Some((1000000000000000000, 1))
        } else {
            None
        }
    } else if n == start + 2 {
        let b = q.get_char(start + 1);
        assert(s[1] == b);
        assert(s =~= seq![a, b]);
        if b != 'i' {
            None
        } else if a == 'K' {
            Some((1048576, 1))
        } else if a == 'M' {
            Some((1048576, 1))
        } else if a == 'G' {
            Some((1073741824, 1))
        } else if a == 'T' {
            Some((1099511627776, 1))
        } else if a == 'P' {
            Some((1125899906842624, 1))
        } else if a == 'E' {
            Some((1152921504606846976, 1))
        } else {
            None
        }
    } else {
        assert(s.len() > 2);
        None
    }
}

/// Decode a Kubernetes quantity: a leading integer with an optional sign and
/// an optional suffix (`m`, `k`, `Ki`, `M`, `Mi`, ... `E`, `Ei`). A fractional
/// result is rounded up; a result outside `i64` saturates.
pub fn parse_quantity(q: &str) -> (r: Result<i64, QuantityError>)
    ensures
        match quantity_value(q@) {
            Ok(v) => r == Ok::<i64, QuantityError>(v as i64),
            Err(e) => r == Err::<i64, QuantityError>(e),
        },
        r is Ok ==> r->Ok_0 as int == quantity_value(q@)->Ok_0,
{
    let n = q.unicode_len();
    if n == 0 {
        return Err(QuantityError::Empty);
    }
    let c0 = q.get_char(0);
    if !(is_digit_char(c0) || c0 == '+' || c0 == '-') {
        return Err(QuantityError::InvalidStart);
    }
    let mut end: usize = 1;
    while end < n && is_digit_char(q.get_char(end))
        invariant
            1 <= end <= n,
            n == q@.len(),
            digit_run_end(q@, 1) == digit_run_end(q@, end as int),
        decreases n - end,
    {
        end = end + 1;
    }
    proof {
        lemma_digit_run_end_bounds(q@, 1);
    }
    assert(end == digit_run_end(q@, 1));
    let ghost t = number_text(q@);
    let start: usize = if is_digit_char(c0) { 0 } else { 1 };
    let neg = c0 == '-';
    assert(t[0] == c0);
    let ghost digits = if is_digit(t[0]) { t } else { t.drop_first() };
    assert(digits =~= q@.subrange(start as int, end as int));
    assert(all_digits(digits)) by {
        assert forall|k: int| 0 <= k < digits.len() implies is_digit(#[trigger] digits[k]) by {
            if start == 0 && k == 0 {
            } else {
                assert(digits[k] == q@.subrange(1, end as int)[k + start - 1]);
            }
        }
    }
    if start == end {
        return Err(QuantityError::InvalidNumber);
    }
    let mag = digits_saturating(q, start, end);
    proof {
        lemma_digits_nonneg(digits);
    }
    if (neg && mag > 9223372036854775808) || (!neg && mag > 9223372036854775807) {
        return Err(QuantityError::InvalidNumber);
    }
    assert(signed_value(t) == Some(if neg { -(mag as int) } else { mag as int }));
    let scale = scale_of(q, end);
    match scale {
        None => Err(QuantityError::UnknownSuffix),
        Some((num, den)) => {
            assert(mag * num <= 9223372036854775808u128 * 1152921504606846976u128)
                by (nonlinear_arith)
                requires
                    mag <= 9223372036854775808u128,
                    num <= 1152921504606846976u128,
            ;
            let p = mag * num;
            let ghost a = (if neg { -(mag as int) } else { mag as int }) * num;
            assert(p as int == mag as int * num as int) by (nonlinear_arith)
                requires
                    mag <= 9223372036854775808u128,
                    num <= 1152921504606846976u128,
                    p == mag * num,
            ;
            // Magnitude of the rounded-up quotient and its sign.
            let (res_mag, res_neg): (u128, bool) = if !neg || p == 0 {
                ((p + (den - 1)) / den, false)
            } else {
                (p / den, true)
            };
            assert(ceil_div(a, den as int) == if res_neg { -(res_mag as int) } else { res_mag as int });
            if res_neg {
                if res_mag > 9223372036854775808 {
                    Ok(i64::MIN)
                } else if res_mag == 9223372036854775808 {
                    Ok(i64::MIN)
                } else {
                    Ok(-(res_mag as i64))
                }
            } else if res_mag > 9223372036854775807 {
                Ok(i64::MAX)
            } else {
                Ok(res_mag as i64)
            }
        },
    }
}

} // verus!
