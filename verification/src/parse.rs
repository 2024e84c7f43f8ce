//! Parsing of the identifier query value: an optional sign followed by one or
//! more ASCII decimal digits, accepted exactly when the value fits in `i32`.

use vstd::prelude::*;

verus! {

/// An ASCII decimal digit.
pub open spec fn is_digit(c: char) -> bool {
    '0' <= c && c <= '9'
}

/// Numeric value of a single decimal digit.
pub open spec fn digit_value(c: char) -> int {
    c as int - '0' as int
}

/// Every character of `s` is a decimal digit.
pub open spec fn all_digits(s: Seq<char>) -> bool {
    forall|i: int| 0 <= i < s.len() ==> is_digit(#[trigger] s[i])
}

/// Value of a sequence of decimal digits, read most significant first.
pub open spec fn digits_value(s: Seq<char>) -> int
    decreases s.len(),
{
    if s.len() == 0 {
        0
    } else {
        digits_value(s.drop_last()) * 10 + digit_value(s.last())
    }
}

/// The digit portion of an integer literal: everything after a leading sign.
pub open spec fn digits_part(s: Seq<char>) -> Seq<char> {
    if s.len() > 0 && (s[0] == '-' || s[0] == '+') {
        s.skip(1)
    } else {
        s
    }
}

/// The signed mathematical value of an integer literal.
pub open spec fn int_value(s: Seq<char>) -> int {
    if s.len() > 0 && s[0] == '-' {
        -digits_value(digits_part(s))
    } else {
        digits_value(digits_part(s))
    }
}

/// `s` is a well-formed base-10 integer literal whose value fits in `i32`:
/// an optional `+` or `-` sign, then at least one decimal digit.
pub open spec fn is_valid_id(s: Seq<char>) -> bool {
    &&& digits_part(s).len() > 0
    &&& all_digits(digits_part(s))
    &&& i32::MIN <= int_value(s) <= i32::MAX
}

/// A digit sequence is non-negative.
proof fn lemma_digits_value_nonneg(s: Seq<char>)
    requires
        all_digits(s),
    ensures
        digits_value(s) >= 0,
    decreases s.len(),
{
    if s.len() > 0 {
        assert(all_digits(s.drop_last()));
        lemma_digits_value_nonneg(s.drop_last());
    }
}

/// A prefix of a digit sequence never exceeds the whole sequence's value.
proof fn lemma_digits_value_prefix_le(s: Seq<char>, k: int)
    requires
        all_digits(s),
        0 <= k <= s.len(),
    ensures
        digits_value(s.take(k)) <= digits_value(s),
    decreases s.len(),
{
    if k == s.len() {
        assert(s.take(k) =~= s);
    } else {
        let t = s.drop_last();
        assert(all_digits(t));
        assert(t.take(k) =~= s.take(k));
        lemma_digits_value_prefix_le(t, k);
        lemma_digits_value_nonneg(t);
    }
}

/// Parses an identifier value the way std's `i32` parser does: an optional
/// `+` or `-` sign followed by one or more decimal digits, rejected on any
/// other character and on values outside the `i32` range.
pub fn parse_id(s: &str) -> (r: Option<i32>)
    ensures
        r is Some <==> is_valid_id(s@),
        r matches Some(v) ==> v as int == int_value(s@),
{
    let n = s.unicode_len();
    if n == 0 {
        return None;
    }
    let first = s.get_char(0);
    let neg = first == '-';
    let has_sign = neg || first == '+';
    let start: usize = if has_sign {
        1
    } else {
        0
    };
    let ghost dp = digits_part(s@);
    proof {
        assert(dp =~= s@.skip(start as int));
    }
    if start == n {
        return None;
    }
    let mut acc: u64 = 0;
    let mut i: usize = start;
    while i < n
        invariant
            start <= i <= n,
            n == s@.len(),
            start == 1 <==> (s@.len() > 0 && (s@[0] == '-' || s@[0] == '+')),
            start == 0 || start == 1,
            dp == digits_part(s@),
            dp =~= s@.skip(start as int),
            all_digits(dp.take(i - start)),
            acc == digits_value(dp.take(i - start)),
            acc <= 2147483648,
        decreases n - i,
    {
        let c = s.get_char(i);
        if c < '0' || c > '9' {
            proof {
                assert(dp[i - start] == c);
                assert(!all_digits(dp));
            }
            return None;
        }
        let d: u64 = (c as u32 - '0' as u32) as u64;
        proof {
            assert(d == digit_value(c));
            assert(dp.take(i + 1 - start).drop_last() =~= dp.take(i - start));
            assert(dp.take(i + 1 - start).last() == c);
        }
        acc = acc * 10 + d;
        i = i + 1;
        if acc > 2147483648 {
            proof {
                if is_valid_id(s@) {
                    lemma_digits_value_prefix_le(dp, i - start);
                    lemma_digits_value_nonneg(dp);
                }
            }
            return None;
        }
    }
    proof {
        assert(dp.take(n - start) =~= dp);
    }
    if neg {
        proof {
            lemma_digits_value_nonneg(dp);
        }
        let v: i64 = -(acc as i64);
        Some(v as i32)
    } else {
        if acc > 2147483647 {
            return None;
        }
        Some(acc as i32)
    }
}

} // verus!
