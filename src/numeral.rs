use vstd::prelude::*;

verus! {

/// Largest magnitude a signed 64-bit integer can carry (that of `i64::MIN`).
pub open spec fn max_magnitude() -> int {
    0x8000_0000_0000_0000
}

pub open spec fn is_digit(c: char) -> bool {
    '0' <= c && c <= '9'
}

pub open spec fn digit_value(c: char) -> int {
    (c as u32) - ('0' as u32)
}

/// Every character of a non-empty text is a decimal digit.
pub open spec fn all_digits(s: Seq<char>) -> bool {
    s.len() > 0 && forall|i: int| 0 <= i < s.len() ==> is_digit(#[trigger] s[i])
}

/// Value of a run of decimal digits, most significant first.
pub open spec fn digits_value(s: Seq<char>) -> int
    decreases s.len(),
{
    if s.len() == 0 {
        0
    } else {
        digits_value(s.drop_last()) * 10 + digit_value(s.last())
    }
}

/// The integer that a text spells: an optional `+` or `-`, then one or more
/// decimal digits, nothing else.
pub open spec fn signed_value(s: Seq<char>) -> Option<int> {
    if s.len() > 0 && s[0] == '-' && all_digits(s.drop_first()) {
        Some(-digits_value(s.drop_first()))
    } else if s.len() > 0 && s[0] == '+' && all_digits(s.drop_first()) {
        Some(digits_value(s.drop_first()))
    } else if all_digits(s) {
        Some(digits_value(s))
    } else {
        None
    }
}

/// The `i64` that a text spells, if it spells one that fits.
pub open spec fn int_of_text(s: Seq<char>) -> Option<i64> {
    match signed_value(s) {
        Some(v) => if i64::MIN <= v <= i64::MAX {
            Some(v as i64)
        } else {
            None
        },
        None => None,
    }
}

proof fn lemma_digits_value_step(s: Seq<char>, a: int, j: int)
    requires
        0 <= a < j <= s.len(),
    ensures
        digits_value(s.subrange(a, j)) == digits_value(s.subrange(a, j - 1)) * 10
            + digit_value(s[j - 1]),
{
    assert(s.subrange(a, j).drop_last() =~= s.subrange(a, j - 1));
}

proof fn lemma_digits_value_nonneg(s: Seq<char>)
    requires
        forall|i: int| 0 <= i < s.len() ==> is_digit(#[trigger] s[i]),
    ensures
        digits_value(s) >= 0,
    decreases s.len(),
{
    if s.len() > 0 {
        lemma_digits_value_nonneg(s.drop_last());
    }
}

/// Appending digits never makes the value smaller.
proof fn lemma_digits_value_grows(s: Seq<char>, a: int, i: int, j: int)
    requires
        0 <= a <= i <= j <= s.len(),
        forall|k: int| a <= k < j ==> is_digit(#[trigger] s[k]),
    ensures
        digits_value(s.subrange(a, j)) >= digits_value(s.subrange(a, i)),
    decreases j - i,
{
    if j > i {
        lemma_digits_value_grows(s, a, i, j - 1);
        lemma_digits_value_step(s, a, j);
        let p = s.subrange(a, j - 1);
        assert forall|k: int| 0 <= k < p.len() implies is_digit(#[trigger] p[k]) by {
            assert(p[k] == s[a + k]);
        }
        lemma_digits_value_nonneg(p);
    }
}

/// Reads a decimal integer: an optional sign, then digits only. Any other
/// text, and a value outside the range of `i64`, gives `None`.
pub fn parse_int(s: &str) -> (r: Option<i64>)
    ensures
        r == int_of_text(s@),
{
    let n = s.unicode_len();
    if n == 0 {
        return None;
    }
    let first = s.get_char(0);
    let negative = first == '-';
    let start: usize = if first == '-' || first == '+' { 1 } else { 0 };
    if start == n {
        assert(!all_digits(s@.drop_first()));
        return None;
    }
    let ghost t = s@.subrange(start as int, n as int);
    proof {
        if start == 1 {
            assert(t =~= s@.drop_first());
            assert(!is_digit(s@[0]));
        } else {
            assert(t =~= s@);
        }
        assert(signed_value(s@) == if all_digits(t) {
            Some(if negative { -digits_value(t) } else { digits_value(t) })
        } else {
            None::<int>
        });
    }
    let mut acc: u64 = 0;
    let mut i: usize = start;
    while i < n
        invariant
            start <= i <= n,
            n == s@.len(),
            start < n,
            t == s@.subrange(start as int, n as int),
            signed_value(s@) == if all_digits(t) {
                Some(if negative { -digits_value(t) } else { digits_value(t) })
            } else {
                None::<int>
            },
            forall|k: int| start <= k < i ==> is_digit(#[trigger] s@[k]),
            acc as int == digits_value(s@.subrange(start as int, i as int)),
            acc as int <= max_magnitude(),
        decreases n - i,
    {
        let c = s.get_char(i);
        if !('0' <= c && c <= '9') {
            assert(!is_digit(t[i - start]));
            assert(!all_digits(t));
            return None;
        }
        let d: u64 = (c as u64) - ('0' as u64);
        proof {
            lemma_digits_value_step(s@, start as int, i + 1);
        }
        if acc > 922_337_203_685_477_580 || acc * 10 + d > 0x8000_0000_0000_0000 {
            proof {
                assert(acc * 10 + d > max_magnitude());
                if all_digits(t) {
                    assert forall|k: int| start <= k < n implies is_digit(#[trigger] s@[k]) by {
                        assert(s@[k] == t[k - start]);
                    }
                    lemma_digits_value_grows(s@, start as int, i + 1, n as int);
                    assert(digits_value(t) > max_magnitude());
                }
            }
            return None;
        }
        acc = acc * 10 + d;
        i = i + 1;
    }
    assert(all_digits(t));
    if negative {
        if acc == 0x8000_0000_0000_0000 {
            Some(i64::MIN)
        } else {
            Some(-(acc as i64))
        }
    } else if acc <= 0x7fff_ffff_ffff_ffff {
        Some(acc as i64)
    } else {
        None
    }
}

} // verus!
