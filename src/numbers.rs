use vstd::prelude::*;
use vstd::string::StrSliceExecFns;
use crate::error::{NumericOption, RunError};

verus! {

pub open spec fn is_digit(c: char) -> bool {
    '0' <= c && c <= '9'
}

pub open spec fn all_digits(s: Seq<char>) -> bool {
    forall|i: int| 0 <= i < s.len() ==> is_digit(#[trigger] s[i])
}

/// The value of a string of decimal digits, most significant first.
pub open spec fn decimal_value(s: Seq<char>) -> nat
    decreases s.len(),
{
    if s.len() == 0 {
        0
    } else {
        decimal_value(s.drop_last()) * 10 + (s.last() as nat - '0' as nat) as nat
    }
}

/// The digits of a numeric option: the text after an optional leading `+`.
pub open spec fn digits_part(s: Seq<char>) -> Seq<char> {
    if s.len() > 0 && s[0] == '+' {
        s.drop_first()
    } else {
        s
    }
}

/// The value of a numeric option, when its text is a positive integer that
/// fits in 16 bits: one or more decimal digits, optionally after a `+`.
pub open spec fn positive_value(s: Seq<char>) -> Option<u16> {
    let d = digits_part(s);
    if d.len() > 0 && all_digits(d) && 0 < decimal_value(d) <= u16::MAX {
        Some(decimal_value(d) as u16)
    } else {
        None
    }
}

proof fn lemma_prefix_value_le(d: Seq<char>, k: int)
    requires
        all_digits(d),
        0 <= k <= d.len(),
    ensures
        decimal_value(d.subrange(0, k)) <= decimal_value(d),
    decreases d.len(),
{
    if k < d.len() {
        let p = d.drop_last();
        assert(all_digits(p)) by {
            assert forall|i: int| 0 <= i < p.len() implies is_digit(#[trigger] p[i]) by {
                assert(p[i] == d[i]);
            }
        }
        lemma_prefix_value_le(p, k);
        assert(p.subrange(0, k) =~= d.subrange(0, k));
    } else {
        assert(d.subrange(0, k) =~= d);
    }
}

/// Reads a positive integer that fits in 16 bits, as `positive_value` says.
pub fn parse_positive(s: &str) -> (r: Option<u16>)
    ensures
        r == positive_value(s@),
{
    let n = s.unicode_len();
    let mut start: usize = 0;
    if n > 0 && s.get_char(0) == '+' {
        start = 1;
    }
    let ghost d = digits_part(s@);
    assert(d =~= s@.subrange(start as int, n as int));
    if start >= n {
        return None;
    }
    let mut v: u32 = 0;
    let mut i: usize = start;
    while i < n
        invariant
            start <= i <= n,
            n == s@.len(),
            d == s@.subrange(start as int, n as int),
            d == digits_part(s@),
            all_digits(d.subrange(0, i - start)),
            v as nat == decimal_value(d.subrange(0, i - start)),
            v <= u16::MAX,
        decreases n - i,
    {
        let c = s.get_char(i);
        assert(d[i - start] == c);
        if !('0' <= c && c <= '9') {
            assert(!is_digit(d[i - start]));
            return None;
        }
        let ghost next = d.subrange(0, i + 1 - start);
        assert(next.drop_last() =~= d.subrange(0, i - start));
        assert(all_digits(next)) by {
            assert forall|j: int| 0 <= j < next.len() implies is_digit(#[trigger] next[j]) by {
                if j < next.len() - 1 {
                    assert(next[j] == d.subrange(0, i - start)[j]);
                }
            }
        }
        let nv: u32 = v * 10 + (c as u32 - '0' as u32);
        assert(nv as nat == decimal_value(next));
        if nv > 65535 {
            proof {
                if all_digits(d) {
                    lemma_prefix_value_le(d, i + 1 - start);
                }
            }
            return None;
        }
        v = nv;
        i = i + 1;
    }
    assert(d.subrange(0, n - start) =~= d);
    if v == 0 {
        None
    } else {
        Some(v as u16)
    }
}

/// Whether a numeric option is absent or holds an acceptable number.
pub open spec fn numeric_ok(value: Option<String>) -> bool {
    match value {
        None => true,
        Some(text) => positive_value(text@) is Some,
    }
}

/// The number an acceptable numeric option stands for, `default` when absent.
pub open spec fn numeric_or(value: Option<String>, default: u16) -> u16 {
    match value {
        Some(text) => positive_value(text@)->Some_0,
        None => default,
    }
}

/// The value of a numeric option: `default` when the option is absent, its
/// value when it holds a positive integer, and otherwise an error naming
/// the option.
pub fn get_int_arg(option: NumericOption, value: &Option<String>, default: u16) -> (r: Result<u16, RunError>)
    ensures
        r == (if numeric_ok(*value) {
            Ok::<u16, RunError>(numeric_or(*value, default))
        } else {
            Err(RunError::InvalidNumericOption(option))
        }),
{
    match value {
        None => Ok(default),
        Some(text) => match parse_positive(text.as_str()) {
            Some(v) => Ok(v),
            None => Err(RunError::InvalidNumericOption(option)),
        },
    }
}

} // verus!
