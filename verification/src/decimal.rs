//! Base-10 text for `i64` values: the text that formatting an integer gives,
//! and what parsing text as an `i64` gives.
use crate::num::fits_i64;
use vstd::prelude::*;
use vstd::string::{StrSliceExecFns, StringExecFns};

verus! {

/// The ASCII character for a decimal digit.
pub open spec fn digit_char(d: nat) -> char {
    (48 + d) as char
}

/// The value of a digit character.
pub open spec fn char_value(c: char) -> int {
    c as int - 48
}

pub open spec fn is_digit(c: char) -> bool {
    '0' <= c <= '9'
}

/// Decimal digits of `n`, most significant first, without leading zeros
/// (a single `0` for zero).
pub open spec fn digits(n: nat) -> Seq<char>
    decreases n,
{
    if n < 10 {
        seq![digit_char(n)]
    } else {
        digits(n / 10).push(digit_char(n % 10))
    }
}

/// Base-10 text of `v`, with a leading minus sign when negative.
pub open spec fn decimal(v: int) -> Seq<char> {
    if v < 0 {
        seq!['-'] + digits((-v) as nat)
    } else {
        digits(v as nat)
    }
}

/// Whether every character is a decimal digit.
pub open spec fn all_digits(s: Seq<char>) -> bool {
    forall|i: int| 0 <= i < s.len() ==> is_digit(s[i])
}

/// The value of a sequence of digits read in base 10.
pub open spec fn digits_value(s: Seq<char>) -> int
    decreases s.len(),
{
    if s.len() == 0 {
        0
    } else {
        digits_value(s.drop_last()) * 10 + char_value(s.last())
    }
}

/// What parsing `s` as an `i64` gives: an optional `+` or `-` sign followed
/// by one or more decimal digits, whose value lies within `i64`; `None` for
/// anything else.
pub open spec fn parse_int(s: Seq<char>) -> Option<int> {
    let negative = s.len() > 0 && s[0] == '-';
    let body = if s.len() > 0 && (s[0] == '-' || s[0] == '+') {
        s.drop_first()
    } else {
        s
    };
    if body.len() == 0 || !all_digits(body) {
        None
    } else {
        let v = if negative {
            -digits_value(body)
        } else {
            digits_value(body)
        };
        if fits_i64(v) {
            Some(v)
        } else {
            None
        }
    }
}

/// The text of one digit.
fn digit_str(d: u64) -> (r: &'static str)
    requires
        d < 10,
    ensures
        r@ == seq![digit_char(d as nat)],
{
    proof {
        reveal_strlit("0");
        reveal_strlit("1");
        reveal_strlit("2");
        reveal_strlit("3");
        reveal_strlit("4");
        reveal_strlit("5");
        reveal_strlit("6");
        reveal_strlit("7");
        reveal_strlit("8");
        reveal_strlit("9");
    }
    if d == 0 {
        "0"
    } else if d == 1 {
        "1"
    } else if d == 2 {
        "2"
    } else if d == 3 {
        "3"
    } else if d == 4 {
        "4"
    } else if d == 5 {
        "5"
    } else if d == 6 {
        "6"
    } else if d == 7 {
        "7"
    } else if d == 8 {
        "8"
    } else {
        "9"
    }
}

/// Appends the digits of `n` to `out`.
fn push_digits(n: u64, out: &mut String)
    ensures
        final(out)@ == old(out)@ + digits(n as nat),
    decreases n,
{
    if n >= 10 {
        push_digits(n / 10, out);
    }
    out.append(digit_str(n % 10));
    assert(old(out)@ + digits(n as nat) =~= if n >= 10 {
        old(out)@ + digits((n / 10) as nat) + seq![digit_char((n % 10) as nat)]
    } else {
        old(out)@ + seq![digit_char((n % 10) as nat)]
    });
}

/// Formats `v` in base 10, as `i64`'s `to_string` does.
pub fn format_i64(v: i64) -> (r: String)
    ensures
        r@ == decimal(v as int),
{
    let mut out = String::new();
    if v < 0 {
        out.append("-");
        proof {
            reveal_strlit("-");
        }
        let magnitude: u64 = if v == i64::MIN {
            0x8000_0000_0000_0000u64
        } else {
            (-v) as u64
        };
        push_digits(magnitude, &mut out);
        assert(out@ =~= seq!['-'] + digits((-v) as nat));
    } else {
        push_digits(v as u64, &mut out);
        assert(out@ =~= digits(v as nat));
    }
    out
}

/// A digit sequence has a nonnegative value.
pub proof fn lemma_digits_value_nonneg(s: Seq<char>)
    requires
        all_digits(s),
    ensures
        digits_value(s) >= 0,
    decreases s.len(),
{
    if s.len() > 0 {
        lemma_digits_value_nonneg(s.drop_last());
    }
}

/// A prefix of a digit sequence has a value no larger than the whole.
pub proof fn lemma_digits_value_prefix(s: Seq<char>, k: int)
    requires
        all_digits(s),
        0 <= k <= s.len(),
    ensures
        digits_value(s.take(k)) <= digits_value(s),
    decreases s.len(),
{
    if k < s.len() {
        assert(s.take(k) =~= s.drop_last().take(k));
        lemma_digits_value_prefix(s.drop_last(), k);
        lemma_digits_value_nonneg(s.drop_last());
    } else {
        assert(s.take(k) =~= s);
    }
}

/// Parses `s` as an `i64`, as `str::parse::<i64>` does: an optional sign,
/// then one or more decimal digits, within range; `None` otherwise.
pub fn parse_i64(s: &str) -> (r: Option<i64>)
    ensures
        match parse_int(s@) {
            Some(v) => r == Some(v as i64),
            None => r is None,
        },
{
    let n = s.unicode_len();
    if n == 0 {
        return None;
    }
    let first = s.get_char(0);
    let negative = first == '-';
    let start: usize = if first == '-' || first == '+' {
        1
    } else {
        0
    };
    if start == n {
        return None;
    }
    let ghost body = if first == '-' || first == '+' {
        s@.drop_first()
    } else {
        s@
    };
    assert(body =~= s@.subrange(start as int, n as int));
    let ghost sign_ok = negative == (s@.len() > 0 && s@[0] == '-');
    assert(sign_ok);
    let ghost outcome = parse_int(s@);
    assert(!all_digits(body) ==> outcome is None);
    assert(all_digits(body) ==> outcome == {
        let v = if negative { -digits_value(body) } else { digits_value(body) };
        if fits_i64(v) { Some(v) } else { None::<int> }
    });
    let mut acc: u64 = 0;
    let mut i = start;
    while i < n
        invariant
            start <= i <= n,
            n == s@.len(),
            body =~= s@.subrange(start as int, n as int),
            all_digits(body.take(i - start)),
            acc == digits_value(body.take(i - start)),
            outcome == parse_int(s@),
            !all_digits(body) ==> outcome is None,
            all_digits(body) ==> outcome == {
                let v = if negative { -digits_value(body) } else { digits_value(body) };
                if fits_i64(v) { Some(v) } else { None::<int> }
            },
        decreases n - i,
    {
        let c = s.get_char(i);
        let ghost j = i - start;
        assert(body[j] == c);
        if !('0' <= c && c <= '9') {
            assert(!all_digits(body));
            return None;
        }
        let d = (c as u32 - 48) as u64;
        assert(body.take(j + 1).drop_last() =~= body.take(j));
        assert(all_digits(body.take(j + 1)));
        assert(d == char_value(c));
        assert(digits_value(body.take(j + 1)) == acc * 10 + d);
        let step = match acc.checked_mul(10) {
            Some(t) => t.checked_add(d),
            None => None,
        };
        match step {
            Some(t) => {
                acc = t;
            },
            None => {
                proof {
                    assert(acc * 10 + d > u64::MAX);
                    if all_digits(body) {
                        lemma_digits_value_prefix(body, j + 1);
                        assert(digits_value(body) > u64::MAX);
                    }
                }
                return None;
            },
        }
        i = i + 1;
    }
    assert(body.take(n - start) =~= body);
    if negative {
        if acc <= 0x8000_0000_0000_0000u64 {
            if acc == 0x8000_0000_0000_0000u64 {
                Some(i64::MIN)
            } else {
                Some(-(acc as i64))
            }
        } else {
            None
        }
    } else {
        if acc <= i64::MAX as u64 {
            Some(acc as i64)
        } else {
            None
        }
    }
}

/// The digits of `n` are digits, at least one of them, and read back as `n`.
pub proof fn lemma_digits_roundtrip(n: nat)
    ensures
        digits(n).len() >= 1,
        all_digits(digits(n)),
        digits_value(digits(n)) == n,
    decreases n,
{
    let s = digits(n);
    if n >= 10 {
        lemma_digits_roundtrip(n / 10);
        assert(s.drop_last() =~= digits(n / 10));
        assert(char_value(s.last()) == n % 10);
        assert(n == (n / 10) * 10 + n % 10);
        assert(digits_value(s) == digits_value(s.drop_last()) * 10 + char_value(s.last()));
        assert forall|i: int| 0 <= i < s.len() implies is_digit(s[i]) by {
            if i < s.len() - 1 {
                assert(s[i] == digits(n / 10)[i]);
            }
        }
    } else {
        assert(s.drop_last() =~= Seq::<char>::empty());
        assert(char_value(s.last()) == n);
        assert(digits_value(s) == digits_value(s.drop_last()) * 10 + char_value(s.last()));
    }
}

/// Reading back the base-10 text of an `i64` value gives that value.
pub proof fn law_parse_format_roundtrip(v: int)
    requires
        fits_i64(v),
    ensures
        parse_int(decimal(v)) == Some(v),
{
    if v < 0 {
        let m = (-v) as nat;
        lemma_digits_roundtrip(m);
        assert((seq!['-'] + digits(m)).drop_first() =~= digits(m));
    } else {
        lemma_digits_roundtrip(v as nat);
        let d = digits(v as nat);
        assert(is_digit(d[0]));
    }
}

} // verus!
