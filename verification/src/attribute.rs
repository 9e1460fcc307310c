//! The generic attribute map a stored row arrives as: each attribute is a
//! string, a number (kept in its decimal string form), a boolean, a list or
//! a nested map. Lookup is by key, first binding wins. The module also
//! defines which strings count as decimal numerals, since number attributes
//! travel as text.

use vstd::prelude::*;
use vstd::string::StrSliceExecFns;

use crate::text::str_eq;
use crate::timestamp::{digit_val, is_digit};

verus! {

/// One attribute of a stored row.
#[derive(Debug, PartialEq)]
pub enum AttributeValue {
    /// A string attribute.
    S(String),
    /// A number attribute, carried in its decimal string form.
    N(String),
    /// A boolean attribute.
    Bool(bool),
    /// A list attribute.
    L(Vec<AttributeValue>),
    /// A nested map attribute.
    M(Vec<(String, AttributeValue)>),
}

/// A stored row: attribute values bound to keys, first binding wins.
pub type AttributeMap = Vec<(String, AttributeValue)>;

/// The value bound to `key`, if any.
pub open spec fn attr_get(entries: Seq<(String, AttributeValue)>, key: Seq<char>) -> Option<
    AttributeValue,
>
    decreases entries.len(),
{
    if entries.len() == 0 {
        None
    } else if entries[0].0@ == key {
        Some(entries[0].1)
    } else {
        attr_get(entries.drop_first(), key)
    }
}

/// Finds the value bound to `key` in a row.
pub fn attr_lookup<'a>(values: &'a AttributeMap, key: &str) -> (r: Option<&'a AttributeValue>)
    ensures
        match r {
            Some(v) => attr_get(values@, key@) == Some(*v),
            None => attr_get(values@, key@) is None,
        },
{
    let mut i: usize = 0;
    proof {
        assert(values@.skip(0) =~= values@);
    }
    while i < values.len()
        invariant
            i <= values@.len(),
            attr_get(values@, key@) == attr_get(values@.skip(i as int), key@),
        decreases values@.len() - i,
    {
        let pair = &values[i];
        proof {
            assert(values@.skip(i as int)[0] == values@[i as int]);
        }
        if str_eq(pair.0.as_str(), key) {
            return Some(&pair.1);
        }
        proof {
            assert(values@.skip(i as int).drop_first() =~= values@.skip(i as int + 1));
        }
        i += 1;
    }
    proof {
        assert(values@.skip(values@.len() as int) =~= Seq::<(String, AttributeValue)>::empty());
    }
    None
}

/// The first position at or after `i` that does not hold a digit.
pub open spec fn digits_end(s: Seq<char>, i: int) -> int
    recommends
        0 <= i <= s.len(),
    decreases s.len() - i,
{
    if i < s.len() && is_digit(s[i]) {
        digits_end(s, i + 1)
    } else {
        i
    }
}

/// After an integer part: the text may end, or continue with a fraction
/// part of at least one digit, possibly followed by an exponent part.
pub open spec fn number_after_integer(s: Seq<char>, i: int) -> bool
    recommends
        0 <= i <= s.len(),
{
    if i == s.len() {
        true
    } else if s[i] == '.' {
        let frac_end = digits_end(s, i + 1);
        frac_end > i + 1 && exponent_or_end(s, frac_end)
    } else {
        exponent_or_end(s, i)
    }
}

/// At position `i` the text must end, or hold an exponent marker, an
/// optional sign and at least one digit reaching the end.
pub open spec fn exponent_or_end(s: Seq<char>, i: int) -> bool
    recommends
        0 <= i <= s.len(),
{
    if i == s.len() {
        true
    } else if s[i] == 'e' || s[i] == 'E' {
        let exp_start = if i + 1 < s.len() && (s[i + 1] == '+' || s[i + 1] == '-') {
            i + 2
        } else {
            i + 1
        };
        digits_end(s, exp_start) > exp_start && digits_end(s, exp_start) == s.len()
    } else {
        false
    }
}

/// Which strings count as decimal numerals: an optional sign, an integer
/// part of at least one digit, an optional fraction part of at least one
/// digit, and an optional exponent part.
pub open spec fn is_number_string(s: Seq<char>) -> bool {
    let start = if s.len() > 0 && (s[0] == '+' || s[0] == '-') {
        1int
    } else {
        0int
    };
    let int_end = digits_end(s, start);
    int_end > start && number_after_integer(s, int_end)
}

/// Scans the digit run starting at `from`.
fn scan_digits(s: &str, n: usize, from: usize) -> (r: usize)
    requires
        n == s@.len(),
        from <= n,
    ensures
        r == digits_end(s@, from as int),
        from <= r <= n,
{
    let mut i = from;
    while i < n
        invariant
            n == s@.len(),
            from <= i <= n,
            digits_end(s@, from as int) == digits_end(s@, i as int),
        decreases n - i,
    {
        let c = s.get_char(i);
        let u = c as u32;
        if !('0' as u32 <= u && u <= '9' as u32) {
            return i;
        }
        i += 1;
    }
    i
}

/// Decides the decimal-numeral grammar exactly.
pub fn check_number_string(s: &str) -> (r: bool)
    ensures
        r == is_number_string(s@),
{
    let n = s.unicode_len();
    let start: usize = if n > 0 && {
        let c = s.get_char(0);
        c == '+' || c == '-'
    } {
        1
    } else {
        0
    };
    let int_end = scan_digits(s, n, start);
    if int_end == start {
        return false;
    }
    let after_frac: usize = if int_end < n && s.get_char(int_end) == '.' {
        let frac_end = scan_digits(s, n, int_end + 1);
        if frac_end == int_end + 1 {
            return false;
        }
        frac_end
    } else {
        int_end
    };
    if after_frac == n {
        return true;
    }
    let c = s.get_char(after_frac);
    if !(c == 'e' || c == 'E') {
        return false;
    }
    let exp_start: usize = if after_frac + 1 < n && {
        let d = s.get_char(after_frac + 1);
        d == '+' || d == '-'
    } {
        after_frac + 2
    } else {
        after_frac + 1
    };
    let exp_end = scan_digits(s, n, exp_start);
    exp_end > exp_start && exp_end == n
}

} // verus!
