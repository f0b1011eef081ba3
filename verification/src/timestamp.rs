//! Chapter timestamps: `H:MM:SS`, `M:SS` or bare seconds.

use vstd::prelude::*;
use crate::text::{chars_of, split, split_chars, views};

verus! {

/// An ASCII decimal digit.
pub open spec fn is_digit(c: char) -> bool {
    '0' <= c <= '9'
}

/// The number a digit stands for.
pub open spec fn digit_value(c: char) -> nat {
    (c as u32 - '0' as u32) as nat
}

/// Every character of `s` is an ASCII decimal digit.
pub open spec fn all_digits(s: Seq<char>) -> bool {
    forall|i: int| 0 <= i < s.len() ==> is_digit(#[trigger] s[i])
}

/// The number written by the digits `s`, read in base ten.
pub open spec fn decimal_value(s: Seq<char>) -> nat
    decreases s.len(),
{
    if s.len() == 0 {
        0
    } else {
        decimal_value(s.drop_last()) * 10 + digit_value(s.last())
    }
}

/// `s` without one leading plus sign.
pub open spec fn unsigned_part(s: Seq<char>) -> Seq<char> {
    if s.len() > 0 && s[0] == '+' {
        s.subrange(1, s.len() as int)
    } else {
        s
    }
}

/// The number a component denotes: an optional `+`, then one or more ASCII
/// digits whose value fits 32 bits. Anything else denotes nothing.
pub open spec fn component_number(s: Seq<char>) -> Option<u32> {
    let digits = unsigned_part(s);
    if digits.len() > 0 && all_digits(digits) && decimal_value(digits) <= u32::MAX {
        Some(decimal_value(digits) as u32)
    } else {
        None
    }
}

/// The value of a component, with 0 for one that denotes no number.
pub open spec fn component_value(s: Seq<char>) -> nat {
    match component_number(s) {
        Some(v) => v as nat,
        None => 0,
    }
}

/// Seconds denoted by colon-separated components, before the 32-bit limit.
pub open spec fn timestamp_total(ts: Seq<char>) -> nat {
    let parts = split(ts, ':');
    if parts.len() == 3 {
        component_value(parts[0]) * 3600 + component_value(parts[1]) * 60 + component_value(
            parts[2],
        )
    } else if parts.len() == 2 {
        component_value(parts[0]) * 60 + component_value(parts[1])
    } else if parts.len() == 1 {
        component_value(parts[0])
    } else {
        0
    }
}

/// Seconds denoted by a timestamp. A total beyond 32 bits counts as
/// malformed and gives 0, like a timestamp of four or more components.
pub open spec fn timestamp_seconds(ts: Seq<char>) -> u32 {
    if timestamp_total(ts) <= u32::MAX {
        timestamp_total(ts) as u32
    } else {
        0
    }
}

/// A longer run of digits never denotes a smaller number than its prefix.
pub proof fn lemma_decimal_value_grows(s: Seq<char>, k: int)
    requires
        0 <= k <= s.len(),
    ensures
        decimal_value(s.subrange(0, k)) <= decimal_value(s),
    decreases s.len() - k,
{
    if k < s.len() {
        lemma_decimal_value_grows(s, k + 1);
        assert(s.subrange(0, k + 1).drop_last() == s.subrange(0, k));
    } else {
        assert(s.subrange(0, k) == s);
    }
}

/// Reads one component as a 32-bit number.
pub fn parse_component(part: &Vec<char>) -> (out: Option<u32>)
    ensures
        out == component_number(part@),
{
    let n = part.len();
    let first: usize = if n > 0 && part[0] == '+' {
        1
    } else {
        0
    };
    let ghost digits = unsigned_part(part@);
    assert(digits == part@.subrange(first as int, n as int));
    if first == n {
        return None;
    }
    let mut acc: u64 = 0;
    let mut i: usize = first;
    while i < n
        invariant
            first <= i <= n,
            n == part@.len(),
            digits == part@.subrange(first as int, n as int),
            digits == unsigned_part(part@),
            all_digits(digits.subrange(0, i - first)),
            acc == decimal_value(digits.subrange(0, i - first)),
            acc <= u32::MAX,
        decreases n - i,
    {
        let c = part[i];
        assert(c == digits[i - first]);
        if c < '0' || c > '9' {
            assert(!is_digit(digits[i - first]));
            return None;
        }
        let d: u64 = (c as u32 - '0' as u32) as u64;
        acc = acc * 10 + d;
        proof {
            let next = digits.subrange(0, i + 1 - first);
            assert(next.drop_last() == digits.subrange(0, i - first));
            assert(next.last() == c);
            assert(acc == decimal_value(next));
            assert forall|j: int| 0 <= j < next.len() implies is_digit(#[trigger] next[j]) by {
                if j < next.len() - 1 {
                    assert(next[j] == digits.subrange(0, i - first)[j]);
                }
            }
        }
        if acc > 0xffff_ffff {
            proof {
                lemma_decimal_value_grows(digits, i + 1 - first);
                assert(decimal_value(digits) > u32::MAX);
            }
            return None;
        }
        i = i + 1;
    }
    assert(digits.subrange(0, n - first) == digits);
    Some(acc as u32)
}

/// Reads one component, with 0 for one that is no number.
fn component_or_zero(part: &Vec<char>) -> (out: u64)
    ensures
        out == component_value(part@),
        out <= u32::MAX,
{
    match parse_component(part) {
        Some(v) => v as u64,
        None => 0,
    }
}

/// Seconds denoted by `ts`: `H:MM:SS`, `M:SS` or bare seconds. A component
/// that is no number counts as 0; four or more components give 0 as a whole.
pub fn parse_timestamp(ts: &str) -> (seconds: u32)
    ensures
        seconds == timestamp_seconds(ts@),
{
    let chars = chars_of(ts);
    let parts = split_chars(&chars, ':');
    proof {
        assert(views(parts@).len() == parts@.len());
        assert forall|i: int| 0 <= i < parts@.len() implies #[trigger] parts@[i]@ == split(
            ts@,
            ':',
        )[i] by {
            assert(views(parts@)[i] == parts@[i]@);
        }
    }
    let total: u64 = if parts.len() == 3 {
        component_or_zero(&parts[0]) * 3600 + component_or_zero(&parts[1]) * 60
            + component_or_zero(&parts[2])
    } else if parts.len() == 2 {
        component_or_zero(&parts[0]) * 60 + component_or_zero(&parts[1])
    } else if parts.len() == 1 {
        component_or_zero(&parts[0])
    } else {
        0
    };
    if total <= 0xffff_ffff {
        total as u32
    } else {
        0
    }
}

} // verus!
