//! Decimal numbers as the machine reads them from a line of input.

use vstd::prelude::*;

verus! {

/// Whether `b` is the code of a decimal digit.
pub open spec fn is_digit(b: u8) -> bool {
    48 <= b <= 57
}

/// Whether every byte of `s` is a decimal digit.
pub open spec fn all_digits(s: Seq<u8>) -> bool {
    forall|i: int| 0 <= i < s.len() ==> is_digit(#[trigger] s[i])
}

/// The number that the decimal digits `s` write.
pub open spec fn digits_value(s: Seq<u8>) -> int
    decreases s.len(),
{
    if s.len() == 0 {
        0
    } else {
        digits_value(s.drop_last()) * 10 + (s.last() - 48)
    }
}

/// Whether the text starts with a sign.
pub open spec fn has_sign(s: Seq<u8>) -> bool {
    s.len() > 0 && (s[0] == 43 || s[0] == 45)
}

/// The digits of the text: what follows the sign, or all of it.
pub open spec fn digits_of(s: Seq<u8>) -> Seq<u8> {
    if has_sign(s) {
        s.skip(1)
    } else {
        s
    }
}

/// The number that the text writes, sign taken into account.
pub open spec fn signed_value(s: Seq<u8>) -> int {
    if s.len() > 0 && s[0] == 45 {
        -digits_value(digits_of(s))
    } else {
        digits_value(digits_of(s))
    }
}

/// The integer that a text denotes: an optional `+` or `-`, then one or more
/// decimal digits and nothing else, with a value that a 64-bit integer holds.
pub open spec fn decimal(s: Seq<u8>) -> Option<i64> {
    if digits_of(s).len() > 0 && all_digits(digits_of(s)) && i64::MIN <= signed_value(s)
        <= i64::MAX {
        Some(signed_value(s) as i64)
    } else {
        None
    }
}

/// The value of a digit string grows with its length: a longer prefix is
/// never less than a shorter one.
pub proof fn lemma_digits_grow(s: Seq<u8>, n: int)
    requires
        all_digits(s),
        0 <= n <= s.len(),
    ensures
        0 <= digits_value(s.take(n)) <= digits_value(s),
    decreases s.len() - n,
{
    if n == s.len() {
        assert(s.take(n) =~= s);
        lemma_digits_nonnegative(s);
    } else {
        lemma_digits_grow(s, n + 1);
        let t = s.take(n + 1);
        assert(t.drop_last() =~= s.take(n));
        assert(is_digit(t.last()));
        lemma_digits_nonnegative(s.take(n));
    }
}

/// A digit string never writes a negative number.
pub proof fn lemma_digits_nonnegative(s: Seq<u8>)
    requires
        all_digits(s),
    ensures
        0 <= digits_value(s),
    decreases s.len(),
{
    if s.len() > 0 {
        assert(is_digit(s.last()));
        lemma_digits_nonnegative(s.drop_last());
    }
}

/// Reads a decimal integer from a line of text.
pub fn parse_decimal(line: &[u8]) -> (r: Option<i64>)
    ensures
        r == decimal(line@),
{
    let n: usize = line.len();
    if n == 0 {
        return None;
    }
    let negative: bool = line[0] == 45;
    let start: usize = if line[0] == 43 || line[0] == 45 {
        1
    } else {
        0
    };
    if start == n {
        return None;
    }
    let ghost digits = digits_of(line@);
    // The magnitude is gathered as a non-positive number, whose range is the wider one.
    let mut acc: i64 = 0;
    let mut i: usize = start;
    while i < n
        invariant
            start <= i <= n,
            n == line@.len(),
            digits == line@.skip(start as int),
            digits == digits_of(line@),
            all_digits(digits.take(i - start)),
            acc == -digits_value(digits.take(i - start)),
        decreases n - i,
    {
        let b: u8 = line[i];
        let ghost head = digits.take(i - start);
        let ghost next = digits.take(i + 1 - start);
        proof {
            assert(next.drop_last() =~= head);
            assert(next.last() == b);
            assert(digits[i - start] == b);
        }
        if b < 48 || b > 57 {
            assert(!is_digit(digits[i - start]));
            return None;
        }
        proof {
            assert forall|k: int| 0 <= k < next.len() implies is_digit(#[trigger] next[k]) by {
                if k < head.len() {
                    assert(head[k] == next[k]);
                }
            }
            lemma_digits_nonnegative(head);
        }
        let d: i64 = (b - 48) as i64;
        let scaled: Option<i64> = acc.checked_mul(10);
        let step: Option<i64> = match scaled {
            Some(m) => m.checked_sub(d),
            None => None,
        };
        match step {
            Some(v) => {
                acc = v;
            },
            None => {
                proof {
                    // Already the prefix read so far is below the least integer.
                    assert(digits_value(next) == digits_value(head) * 10 + d);
                    assert(digits_value(next) > -(i64::MIN as int));
                    lemma_rest_out_of_range(digits, i + 1 - start);
                }
                return None;
            },
        }
        i += 1;
    }
    proof {
        assert(digits.take(n - start) =~= digits);
    }
    if negative {
        Some(acc)
    } else if acc == i64::MIN {
        None
    } else {
        Some(-acc)
    }
}

/// Where a prefix of a digit string is beyond the range, so is the whole, or
/// the string holds something that is no digit.
proof fn lemma_rest_out_of_range(s: Seq<u8>, n: int)
    requires
        0 <= n <= s.len(),
        all_digits(s.take(n)),
        digits_value(s.take(n)) > -(i64::MIN as int),
    ensures
        !all_digits(s) || digits_value(s) > -(i64::MIN as int),
{
    if all_digits(s) {
        lemma_digits_grow(s, n);
    }
}

} // verus!
