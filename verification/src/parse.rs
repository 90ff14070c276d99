//! Lenient parsing of command arguments: boolean flags and node versions.
//! Neither ever fails: malformed text yields `false`, or the version that
//! matches any.

use vstd::prelude::*;
use vstd::string::*;

verus! {

/// The version that places no condition on a write or a delete.
pub const ANY_VERSION: i32 = -1;

/// Whether `s` spells `true`, in any mix of upper and lower case.
pub open spec fn is_true_text(s: Seq<char>) -> bool {
    &&& s.len() == 4
    &&& (s[0] == 't' || s[0] == 'T')
    &&& (s[1] == 'r' || s[1] == 'R')
    &&& (s[2] == 'u' || s[2] == 'U')
    &&& (s[3] == 'e' || s[3] == 'E')
}

/// Whether `c` is one of the decimal digits `0` to `9`.
pub open spec fn is_digit(c: char) -> bool {
    '0' <= c && c <= '9'
}

/// Whether every character of `s` is a decimal digit.
pub open spec fn all_digits(s: Seq<char>) -> bool {
    forall|i: int| 0 <= i < s.len() ==> is_digit(#[trigger] s[i])
}

/// The number that the decimal digits `s` denote; the empty sequence denotes 0.
pub open spec fn decimal_value(s: Seq<char>) -> nat
    decreases s.len(),
{
    if s.len() == 0 {
        0
    } else {
        (decimal_value(s.drop_last()) * 10 + (s.last() as u32 - '0' as u32)) as nat
    }
}

/// The integer that `s` denotes: an optional sign, `+` or `-`, then at least
/// one decimal digit. `None` where `s` has another shape.
pub open spec fn signed_value(s: Seq<char>) -> Option<int> {
    if s.len() == 0 {
        None
    } else if s[0] == '-' {
        if s.len() > 1 && all_digits(s.skip(1)) {
            Some(-(decimal_value(s.skip(1)) as int))
        } else {
            None
        }
    } else if s[0] == '+' {
        if s.len() > 1 && all_digits(s.skip(1)) {
            Some(decimal_value(s.skip(1)) as int)
        } else {
            None
        }
    } else if all_digits(s) {
        Some(decimal_value(s) as int)
    } else {
        None
    }
}

/// The version that the text `s` asks for: the integer it denotes where that
/// fits in 32 bits, and the version that matches any otherwise.
pub open spec fn version_of(s: Seq<char>) -> int {
    match signed_value(s) {
        Some(v) => if i32::MIN <= v <= i32::MAX {
            v
        } else {
            ANY_VERSION as int
        },
        None => ANY_VERSION as int,
    }
}

/// A longer run of digits denotes no smaller a number than each of its prefixes.
pub proof fn lemma_decimal_value_monotone(s: Seq<char>, k: int)
    requires
        0 <= k <= s.len(),
        all_digits(s),
    ensures
        decimal_value(s.take(k)) <= decimal_value(s),
    decreases s.len() - k,
{
    if k == s.len() {
        assert(s.take(k) =~= s);
    } else {
        lemma_decimal_value_monotone(s, k + 1);
        let t = s.take(k + 1);
        assert(t.drop_last() =~= s.take(k));
        assert(t.last() == s[k]);
        assert(is_digit(s[k]));
    }
}

/// Parses a boolean flag: `true` in any case is true, all else is false.
pub fn parse_flag(text: &str) -> (flag: bool)
    ensures
        flag == is_true_text(text@),
{
    let len = text.unicode_len();
    if len != 4 {
        return false;
    }
    let c0 = text.get_char(0);
    let c1 = text.get_char(1);
    let c2 = text.get_char(2);
    let c3 = text.get_char(3);
    (c0 == 't' || c0 == 'T') && (c1 == 'r' || c1 == 'R') && (c2 == 'u' || c2 == 'U') && (c3 == 'e'
        || c3 == 'E')
}

/// Parses a node version: a signed decimal integer of 32 bits. Text of any
/// other shape, or a number out of range, yields the version that matches any.
pub fn parse_version(text: &str) -> (version: i32)
    ensures
        version == version_of(text@),
{
    let len = text.unicode_len();
    if len == 0 {
        return ANY_VERSION;
    }
    let first = text.get_char(0);
    let negative = first == '-';
    let signed = negative || first == '+';
    if signed && len == 1 {
        return ANY_VERSION;
    }
    let from: usize = if signed {
        1
    } else {
        0
    };
    let ghost digits = text@.skip(from as int);
    let limit: u64 = 2147483648;
    let mut acc: u64 = 0;
    let mut i: usize = 0;
    for c in it: text.chars()
        invariant
            i == it.index(),
            it.seq() == text@,
            len == text@.len(),
            from <= 1,
            from < len,
            from == 1 <==> (text@[0] == '-' || text@[0] == '+'),
            digits == text@.skip(from as int),
            limit == 2147483648,
            acc <= limit,
            i >= from ==> all_digits(digits.take(i - from)),
            i >= from ==> acc == decimal_value(digits.take(i - from)),
            i < from ==> acc == 0,
    {
        if i >= from {
            let ghost seen = digits.take(i - from);
            let ghost next = digits.take(i - from + 1);
            proof {
                assert(digits[i - from] == c);
                assert(next.drop_last() =~= seen);
                assert(next.last() == c);
            }
            if !('0' <= c && c <= '9') {
                proof {
                    assert(!all_digits(digits));
                    if from == 0 {
                        assert(digits =~= text@);
                    }
                }
                return ANY_VERSION;
            }
            let digit: u64 = (c as u32 - '0' as u32) as u64;
            let grown: u64 = acc * 10 + digit;
            proof {
                assert forall|j: int| 0 <= j < next.len() implies is_digit(#[trigger] next[j]) by {
                    if j < seen.len() {
                        assert(next[j] == seen[j]);
                    }
                }
                assert(grown == decimal_value(next));
            }
            if grown > limit {
                proof {
                    lemma_overflow_stays(digits, i - from + 1);
                    if from == 0 {
                        assert(digits =~= text@);
                    }
                }
                return ANY_VERSION;
            }
            acc = grown;
        } else {
            proof {
                assert(digits.take(0) =~= Seq::<char>::empty());
            }
        }
        i = i + 1;
    }
    proof {
        assert(digits.take(len - from) =~= digits);
        if from == 0 {
            assert(digits =~= text@);
        }
    }
    if negative {
        (0 - acc as i64) as i32
    } else if acc == limit {
        ANY_VERSION
    } else {
        acc as i32
    }
}

/// Once a prefix of `s` denotes more than 2^31, the text as a whole denotes
/// no 32-bit integer, whether or not all of it is digits.
pub proof fn lemma_overflow_stays(s: Seq<char>, k: int)
    requires
        0 <= k <= s.len(),
        all_digits(s.take(k)),
        decimal_value(s.take(k)) > 2147483648,
    ensures
        all_digits(s) ==> decimal_value(s) > 2147483648,
{
    if all_digits(s) {
        lemma_decimal_value_monotone(s, k);
    }
}

} // verus!
