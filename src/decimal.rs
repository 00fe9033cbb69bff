//! Monetary values travel as exact decimal strings: digits with at most one
//! decimal point, which has digits on both sides. They are checked here as
//! text and never turned into binary floating point.
use vstd::prelude::*;
use vstd::string::*;

verus! {

pub open spec fn is_digit(c: char) -> bool {
    '0' <= c && c <= '9'
}

/// `s` is a non-negative exact decimal: one or more digits, optionally a
/// point followed by one or more digits.
pub open spec fn spec_is_decimal(s: Seq<char>) -> bool {
    &&& s.len() > 0
    &&& forall|i: int| 0 <= i < s.len() ==> is_digit(#[trigger] s[i]) || s[i] == '.'
    &&& forall|i: int, j: int|
        0 <= i < s.len() && 0 <= j < s.len() && #[trigger] s[i] == '.' && #[trigger] s[j] == '.'
            ==> i == j
    &&& s[0] != '.'
    &&& s[s.len() - 1] != '.'
}

/// `s` is an exact decimal whose value is above zero: some digit is not `0`.
pub open spec fn spec_is_positive_decimal(s: Seq<char>) -> bool {
    &&& spec_is_decimal(s)
    &&& exists|i: int| 0 <= i < s.len() && is_digit(#[trigger] s[i]) && s[i] != '0'
}

/// Whether `s` is a well-formed non-negative exact decimal.
pub fn is_decimal(s: &str) -> (r: bool)
    ensures
        r == spec_is_decimal(s@),
{
    let n = s.unicode_len();
    if n == 0 {
        return false;
    }
    let mut i: usize = 0;
    let mut dot: Option<usize> = None;
    while i < n
        invariant
            n == s@.len(),
            0 <= i <= n,
            forall|k: int| 0 <= k < i ==> is_digit(#[trigger] s@[k]) || s@[k] == '.',
            dot matches Some(d) ==> d < i && s@[d as int] == '.' && forall|k: int|
                0 <= k < i && #[trigger] s@[k] == '.' ==> k == d,
            dot is None ==> forall|k: int| 0 <= k < i ==> #[trigger] s@[k] != '.',
        decreases n - i,
    {
        let c = s.get_char(i);
        if c == '.' {
            if let Some(d) = dot {
                assert(s@[d as int] == '.' && s@[i as int] == '.' && d != i);
                return false;
            }
            dot = Some(i);
        } else if !('0' <= c && c <= '9') {
            assert(!(is_digit(s@[i as int]) || s@[i as int] == '.'));
            return false;
        }
        i += 1;
    }
    let first = s.get_char(0);
    let last = s.get_char(n - 1);
    first != '.' && last != '.'
}

/// Whether `s` is a well-formed exact decimal above zero.
pub fn is_positive_decimal(s: &str) -> (r: bool)
    ensures
        r == spec_is_positive_decimal(s@),
{
    if !is_decimal(s) {
        return false;
    }
    let n = s.unicode_len();
    let mut i: usize = 0;
    while i < n
        invariant
            n == s@.len(),
            0 <= i <= n,
            spec_is_decimal(s@),
            forall|k: int| 0 <= k < i ==> !(is_digit(#[trigger] s@[k]) && s@[k] != '0'),
        decreases n - i,
    {
        let c = s.get_char(i);
        if '1' <= c && c <= '9' {
            let ghost k = i as int;
            assert(0 <= k < s@.len() && is_digit(s@[k]) && s@[k] != '0');
            return true;
        }
        i += 1;
    }
    false
}

} // verus!
