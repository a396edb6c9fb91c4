//! Decimal integers as `i32` reads them: an optional sign, then digits.
use vstd::prelude::*;

verus! {

pub open spec fn is_digit(c: char) -> bool {
    '0' <= c && c <= '9'
}

pub open spec fn all_digits(s: Seq<char>) -> bool {
    forall|i: int| 0 <= i < s.len() ==> is_digit(#[trigger] s[i])
}

/// The value of a string of decimal digits.
pub open spec fn digits_value(s: Seq<char>) -> int
    decreases s.len(),
{
    if s.len() == 0 {
        0
    } else {
        digits_value(s.drop_last()) * 10 + (s.last() as int - '0' as int)
    }
}

/// The integer that `s` writes: an optional `+` or `-`, then at least one digit.
pub open spec fn signed_value(s: Seq<char>) -> Option<int> {
    if s.len() > 0 && (s[0] == '+' || s[0] == '-') {
        let d = s.drop_first();
        if d.len() > 0 && all_digits(d) {
            Some(if s[0] == '-' { -digits_value(d) } else { digits_value(d) })
        } else {
            None
        }
    } else if s.len() > 0 && all_digits(s) {
        Some(digits_value(s))
    } else {
        None
    }
}

/// The `i32` that `s` writes, if it writes one in range.
pub open spec fn i32_of(s: Seq<char>) -> Option<int> {
    match signed_value(s) {
        Some(v) => if i32::MIN <= v <= i32::MAX { Some(v) } else { None },
        None => None,
    }
}

proof fn lemma_digits_value_nonneg(s: Seq<char>)
    requires
        all_digits(s),
    ensures
        digits_value(s) >= 0,
    decreases s.len(),
{
    if s.len() > 0 {
        assert(all_digits(s.drop_last()));
        lemma_digits_value_nonneg(s.drop_last());
        assert(is_digit(s[s.len() - 1]));
    }
}

const CAP: i64 = 8589934592;

/// Reads the `i32` written by the characters of `s` from `start` on.
pub fn parse_i32(s: &Vec<char>, start: usize) -> (r: Option<i32>)
    requires
        start <= s.len(),
    ensures
        match r {
            Some(v) => i32_of(s@.subrange(start as int, s.len() as int)) == Some(v as int),
            None => i32_of(s@.subrange(start as int, s.len() as int)) is None,
        },
{
    let ghost t = s@.subrange(start as int, s.len() as int);
    let mut i: usize = start;
    let mut neg = false;
    let signed = i < s.len() && (s[i] == '+' || s[i] == '-');
    if signed {
        neg = s[i] == '-';
        i = i + 1;
    }
    if i == s.len() {
        return None;
    }
    let ds = i;
    let mut acc: i64 = 0;
    while i < s.len()
        invariant
            start <= ds <= i <= s.len(),
            ds < s.len(),
            t == s@.subrange(start as int, s.len() as int),
            signed ==> ds == start + 1 && (s@[start as int] == '+' || s@[start as int] == '-'),
            !signed ==> ds == start && !(s@[start as int] == '+' || s@[start as int] == '-'),
            neg == (signed && s@[start as int] == '-'),
            all_digits(s@.subrange(ds as int, i as int)),
            0 <= acc <= CAP,
            acc == CAP ==> digits_value(s@.subrange(ds as int, i as int)) >= CAP,
            acc < CAP ==> acc == digits_value(s@.subrange(ds as int, i as int)),
        decreases s.len() - i,
    {
        let c = s[i];
        if !('0' <= c && c <= '9') {
            proof {
                let d = s@.subrange(ds as int, s.len() as int);
                assert(d[i - ds] == c);
                if signed {
                    assert(t.drop_first() =~= d);
                } else {
                    assert(t =~= d);
                }
            }
            return None;
        }
        let d = (c as u32 - '0' as u32) as i64;
        let ghost prev = s@.subrange(ds as int, i as int);
        let ghost next = s@.subrange(ds as int, i + 1);
        assert(next.drop_last() =~= prev);
        assert(all_digits(next));
        proof {
            lemma_digits_value_nonneg(prev);
        }
        if acc == CAP {
            acc = CAP;
        } else if acc * 10 + d > CAP {
            acc = CAP;
        } else {
            acc = acc * 10 + d;
        }
        i = i + 1;
    }
    let ghost d = s@.subrange(ds as int, s.len() as int);
    proof {
        if signed {
            assert(t.drop_first() =~= d);
        } else {
            assert(t =~= d);
        }
    }
    let v: i64 = if neg { -acc } else { acc };
    if v < -2147483648 || v > 2147483647 {
        None
    } else {
        Some(v as i32)
    }
}

} // verus!
