//! Decimal integers as `i32::from_str` reads them: an optional sign, then one
//! or more ASCII digits, with the value inside the `i32` range.
use vstd::prelude::*;

verus! {

pub open spec fn is_digit(b: u8) -> bool {
    48 <= b <= 57
}

pub open spec fn all_digits(s: Seq<u8>) -> bool {
    forall|i: int| 0 <= i < s.len() ==> is_digit(#[trigger] s[i])
}

/// The value of a string of decimal digits, most significant first.
pub open spec fn digits_value(s: Seq<u8>) -> int
    decreases s.len(),
{
    if s.len() == 0 {
        0
    } else {
        digits_value(s.drop_last()) * 10 + (s.last() - 48)
    }
}

/// The magnitude written by a non-empty run of digits.
pub open spec fn magnitude(s: Seq<u8>) -> Option<int> {
    if s.len() > 0 && all_digits(s) {
        Some(digits_value(s))
    } else {
        None
    }
}

/// The integer written by `s`, whatever its size.
pub open spec fn signed_value(s: Seq<u8>) -> Option<int> {
    if s.len() > 0 && s[0] == 45u8 {
        match magnitude(s.drop_first()) {
            Some(m) => Some(-m),
            None => None,
        }
    } else if s.len() > 0 && s[0] == 43u8 {
        magnitude(s.drop_first())
    } else {
        magnitude(s)
    }
}

/// The `i32` written by `s`, if it is one.
pub open spec fn parse_i32_spec(s: Seq<u8>) -> Option<i32> {
    match signed_value(s) {
        Some(v) => if i32::MIN <= v <= i32::MAX {
            Some(v as i32)
        } else {
            None
        },
        None => None,
    }
}

proof fn lemma_digits_nonneg(s: Seq<u8>)
    requires
        all_digits(s),
    ensures
        digits_value(s) >= 0,
    decreases s.len(),
{
    if s.len() > 0 {
        assert(all_digits(s.drop_last()));
        lemma_digits_nonneg(s.drop_last());
    }
}

/// A longer run of digits is worth at least as much as its prefix.
proof fn lemma_prefix_le(s: Seq<u8>, k: int)
    requires
        all_digits(s),
        0 <= k <= s.len(),
    ensures
        digits_value(s.subrange(0, k)) <= digits_value(s),
    decreases s.len(),
{
    if k < s.len() {
        let d = s.drop_last();
        assert(all_digits(d));
        assert(d.subrange(0, k) =~= s.subrange(0, k));
        lemma_prefix_le(d, k);
        lemma_digits_nonneg(d);
    } else {
        assert(s.subrange(0, k) =~= s);
    }
}

/// Reads a decimal `i32` from bytes.
pub fn parse_i32(s: &[u8]) -> (r: Option<i32>)
    ensures
        r == parse_i32_spec(s@),
{
    let n = s.len();
    let mut start: usize = 0;
    let mut neg = false;
    if n > 0 && s[0] == 45u8 {
        start = 1;
        neg = true;
    } else if n > 0 && s[0] == 43u8 {
        start = 1;
    }
    let ghost body = s@.subrange(start as int, n as int);
    assert(start == 1 ==> body =~= s@.drop_first());
    assert(start == 0 ==> body =~= s@);
    assert(neg ==> signed_value(s@) == match magnitude(body) {
        Some(m) => Some(-m),
        None => None::<int>,
    });
    assert(!neg ==> signed_value(s@) == magnitude(body));
    assert(!all_digits(body) ==> parse_i32_spec(s@) is None);
    assert(all_digits(body) && digits_value(body) > 2147483648 ==> parse_i32_spec(s@) is None);
    if start == n {
        return None;
    }
    let mut acc: i64 = 0;
    let mut i: usize = start;
    while i < n
        invariant
            start <= i <= n,
            n == s@.len(),
            start < n,
            body == s@.subrange(start as int, n as int),
            !all_digits(body) ==> parse_i32_spec(s@) is None,
            all_digits(body) && digits_value(body) > 2147483648 ==> parse_i32_spec(s@) is None,
            0 <= acc <= 2147483648,
            all_digits(s@.subrange(start as int, i as int)),
            acc == digits_value(s@.subrange(start as int, i as int)),
        decreases n - i,
    {
        let b = s[i];
        if b < 48u8 || b > 57u8 {
            assert(body[i - start] == b);
            assert(!all_digits(body));
            return None;
        }
        let next = acc * 10 + (b - 48u8) as i64;
        let ghost pre = s@.subrange(start as int, i as int + 1);
        proof {
            assert(pre.drop_last() =~= s@.subrange(start as int, i as int));
            assert(all_digits(pre));
        }
        if next > 2147483648 {
            proof {
                if all_digits(body) {
                    assert(body.subrange(0, i - start + 1) =~= pre);
                    lemma_prefix_le(body, i - start + 1);
                    assert(digits_value(body) > 2147483648);
                }
            }
            return None;
        }
        acc = next;
        i = i + 1;
    }
    assert(s@.subrange(start as int, n as int) =~= body);
    if neg {
        Some((-acc) as i32)
    } else if acc > 2147483647 {
        None
    } else {
        Some(acc as i32)
    }
}

} // verus!
