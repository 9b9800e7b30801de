//! Best-effort decimal parsing for the optional year attribute: an exact
//! model of parsing an `i32` from text (optional sign, one or more ASCII
//! digits, value in range), and a verified parser for it.

use vstd::prelude::*;
use vstd::string::*;

verus! {

/// True when `c` is an ASCII decimal digit.
pub open spec fn is_digit_char(c: char) -> bool {
    48 <= c as int && c as int <= 57
}

/// The numeric value of a digit character.
pub open spec fn digit_value(c: char) -> int {
    c as int - 48
}

/// Every character of `s` is an ASCII decimal digit.
pub open spec fn all_digits(s: Seq<char>) -> bool {
    forall|i: int| 0 <= i < s.len() ==> is_digit_char(s[i])
}

/// The value of a digit string read in base ten.
pub open spec fn digits_value(s: Seq<char>) -> int
    decreases s.len(),
{
    if s.len() == 0 {
        0
    } else {
        digits_value(s.drop_last()) * 10 + digit_value(s.last())
    }
}

/// The signed value named by a run of digits, or nothing when the run is
/// empty, holds a non-digit, or names a value outside `i32`.
pub open spec fn spec_parse_digits(neg: bool, digits: Seq<char>) -> Option<i32> {
    if digits.len() == 0 || !all_digits(digits) {
        None
    } else {
        let v = if neg {
            -digits_value(digits)
        } else {
            digits_value(digits)
        };
        if i32::MIN <= v <= i32::MAX {
            Some(v as i32)
        } else {
            None
        }
    }
}

/// What parsing an `i32` out of `s` yields: an optional leading `+` or `-`,
/// then one or more ASCII digits naming a value in range, and nothing on any
/// other text.
pub open spec fn spec_parse_i32(s: Seq<char>) -> Option<i32> {
    if s.len() > 0 && (s[0] == '+' || s[0] == '-') {
        spec_parse_digits(s[0] == '-', s.subrange(1, s.len() as int))
    } else {
        spec_parse_digits(false, s)
    }
}

/// A digit string's value is never negative.
proof fn lemma_digits_value_nonneg(s: Seq<char>)
    requires
        all_digits(s),
    ensures
        digits_value(s) >= 0,
    decreases s.len(),
{
    if s.len() > 0 {
        assert(all_digits(s.drop_last()));
        lemma_digits_value_nonneg(s.drop_last());
    }
}

/// Reading further digits never shrinks the value: the value of a prefix of
/// a digit string is at most the value of the whole.
proof fn lemma_digits_value_prefix_le(s: Seq<char>, m: int)
    requires
        all_digits(s),
        0 <= m <= s.len(),
    ensures
        digits_value(s.take(m)) <= digits_value(s),
    decreases s.len() - m,
{
    if m == s.len() {
        assert(s.take(m) =~= s);
    } else {
        assert(all_digits(s.take(m)));
        lemma_digits_value_nonneg(s.take(m));
        assert(s.take(m + 1).drop_last() =~= s.take(m));
        assert(s.take(m + 1).last() == s[m]);
        assert(digits_value(s.take(m + 1)) == digits_value(s.take(m)) * 10 + digit_value(s[m]));
        lemma_digits_value_prefix_le(s, m + 1);
    }
}

/// Parse an `i32` from text exactly as `spec_parse_i32` describes; any text
/// that does not name an in-range integer yields `None`, never a panic.
pub fn parse_i32(s: &str) -> (r: Option<i32>)
    ensures
        r == spec_parse_i32(s@),
{
    let n = s.unicode_len();
    if n == 0 {
        return None;
    }
    let first = s.get_char(0);
    let neg: bool = first == '-';
    let start: usize = if first == '-' || first == '+' {
        1
    } else {
        0
    };
    let ghost digits: Seq<char> = s@.subrange(start as int, n as int);
    proof {
        if start == 0 {
            assert(digits =~= s@);
        }
        assert(spec_parse_i32(s@) == spec_parse_digits(neg, digits));
    }
    if start == n {
        // a bare sign: no digits at all
        return None;
    }
    let mut i: usize = start;
    let mut acc: i64 = 0;
    while i < n
        invariant
            s@.len() == n,
            start <= i <= n,
            start < n,
            digits == s@.subrange(start as int, n as int),
            spec_parse_i32(s@) == spec_parse_digits(neg, digits),
            all_digits(digits.take(i - start)),
            acc == digits_value(digits.take(i - start)),
            0 <= acc <= 2147483648i64,
        decreases n - i,
    {
        let c = s.get_char(i);
        let u = c as u32;
        if u < 48 || u > 57 {
            // a non-digit anywhere in the run makes the whole text unparseable
            assert(digits[i - start] == c);
            assert(!all_digits(digits));
            return None;
        }
        let d = (u - 48) as i64;
        proof {
            assert(digits.take(i + 1 - start).drop_last() =~= digits.take(i - start));
            assert(digits.take(i + 1 - start).last() == digits[i - start]);
            assert(digits[i - start] == c);
        }
        acc = acc * 10 + d;
        if acc > 2147483648i64 {
            // the digits read so far already name too large a value, and
            // further digits can only grow it
            proof {
                if all_digits(digits) {
                    lemma_digits_value_prefix_le(digits, i + 1 - start);
                    assert(digits_value(digits) > 2147483648);
                }
            }
            return None;
        }
        i += 1;
    }
    proof {
        assert(digits.take(n - start) =~= digits);
    }
    if neg {
        if acc == 2147483648i64 {
            Some(i32::MIN)
        } else {
            Some((-acc) as i32)
        }
    } else {
        if acc == 2147483648i64 {
            None
        } else {
            Some(acc as i32)
        }
    }
}

} // verus!
