//! Parsing of unsigned decimal integers and booleans from their textual
//! form, matching the standard library's `FromStr` behaviour: an optional
//! leading `+`, then one or more ASCII digits, and rejection on overflow.

use vstd::prelude::*;
use vstd::string::StrSliceExecFns;

verus! {

pub open spec fn is_dec_digit(c: char) -> bool {
    '0' <= c && c <= '9'
}

pub open spec fn dec_digit_val(c: char) -> int {
    c as int - '0' as int
}

/// The value of a big-endian decimal digit string.
pub open spec fn dec_val(s: Seq<char>) -> int
    decreases s.len(),
{
    if s.len() == 0 {
        0
    } else {
        dec_val(s.drop_last()) * 10 + dec_digit_val(s.last())
    }
}

/// The digit part of a decimal literal: everything after an optional
/// leading `+`.
pub open spec fn dec_digits_of(s: Seq<char>) -> Seq<char> {
    if s.len() >= 1 && s[0] == '+' {
        s.drop_first()
    } else {
        s
    }
}

/// Whether `s` is a decimal literal whose value is at most `max`; exactly
/// the strings accepted by `str::parse` for an unsigned type whose largest
/// value is `max`.
pub open spec fn dec_str_ok(s: Seq<char>, max: int) -> bool {
    let d = dec_digits_of(s);
    &&& d.len() >= 1
    &&& (forall|i: int| 0 <= i < d.len() ==> is_dec_digit(d[i]))
    &&& dec_val(d) <= max
}

/// The value of a decimal literal.
pub open spec fn dec_str_val(s: Seq<char>) -> int {
    dec_val(dec_digits_of(s))
}

pub proof fn lemma_dec_val_nonneg(s: Seq<char>)
    requires
        forall|i: int| 0 <= i < s.len() ==> is_dec_digit(s[i]),
    ensures
        dec_val(s) >= 0,
    decreases s.len(),
{
    if s.len() > 0 {
        lemma_dec_val_nonneg(s.drop_last());
    }
}

/// Extending a digit string multiplies its value by ten and adds the new
/// digit.
pub proof fn lemma_dec_val_take(s: Seq<char>, i: int)
    requires
        0 <= i < s.len(),
    ensures
        dec_val(s.take(i + 1)) == dec_val(s.take(i)) * 10 + dec_digit_val(s[i]),
{
    assert(s.take(i + 1).drop_last() =~= s.take(i));
    assert(s.take(i + 1).last() == s[i]);
}

/// A digit string is worth at least any of its prefixes.
pub proof fn lemma_dec_val_prefix(s: Seq<char>, i: int)
    requires
        0 <= i <= s.len(),
        forall|j: int| 0 <= j < s.len() ==> is_dec_digit(s[j]),
    ensures
        dec_val(s) >= dec_val(s.take(i)),
    decreases s.len() - i,
{
    if i == s.len() {
        assert(s.take(i) =~= s);
    } else {
        lemma_dec_val_take(s, i);
        lemma_dec_val_nonneg(s.take(i));
        lemma_dec_val_prefix(s, i + 1);
    }
}

/// Parses an unsigned decimal integer as `str::parse::<u64>` does.
pub fn parse_u64_str(s: &str) -> (r: Option<u64>)
    ensures
        r is Some <==> dec_str_ok(s@, u64::MAX as int),
        r is Some ==> r->0 as int == dec_str_val(s@),
{
    let n = s.unicode_len();
    let start: usize = if n >= 1 && s.get_char(0) == '+' {
        1
    } else {
        0
    };
    proof {
        assert(s@.skip(start as int) =~= dec_digits_of(s@));
    }
    if n == start {
        return None;
    }
    let ghost d = dec_digits_of(s@);
    let mut v: u64 = 0;
    let mut i: usize = start;
    while i < n
        invariant
            n == s@.len(),
            start <= i <= n,
            d == s@.skip(start as int),
            d == dec_digits_of(s@),
            forall|j: int| 0 <= j < i - start ==> is_dec_digit(d[j]),
            v as int == dec_val(d.take(i - start)),
        decreases n - i,
    {
        let c = s.get_char(i);
        if !('0' <= c && c <= '9') {
            proof {
                assert(d[i - start] == c);
            }
            return None;
        }
        let digit: u64 = (c as u32 as u64) - ('0' as u32 as u64);
        proof {
            assert(d[i - start] == c);
            assert(digit as int == dec_digit_val(c));
            lemma_dec_val_take(d, i - start);
        }
        let mul = match v.checked_mul(10) {
            Some(m) => m,
            None => {
                proof {
                    assert(dec_val(d.take(i - start + 1)) > u64::MAX as int);
                    if dec_str_ok(s@, u64::MAX as int) {
                        assert(forall|j: int| 0 <= j < d.len() ==> is_dec_digit(d[j]));
                        lemma_dec_val_prefix(d, i - start + 1);
                        assert(false);
                    }
                }
                return None;
            },
        };
        let next = match mul.checked_add(digit) {
            Some(m) => m,
            None => {
                proof {
                    assert(dec_val(d.take(i - start + 1)) > u64::MAX as int);
                    if dec_str_ok(s@, u64::MAX as int) {
                        assert(forall|j: int| 0 <= j < d.len() ==> is_dec_digit(d[j]));
                        lemma_dec_val_prefix(d, i - start + 1);
                        assert(false);
                    }
                }
                return None;
            },
        };
        v = next;
        i += 1;
    }
    proof {
        assert(d.take(n - start) =~= d);
    }
    Some(v)
}

/// Parses a boolean as `str::parse::<bool>` does: exactly `true` or
/// `false`.
pub fn parse_bool_str(s: &str) -> (r: Option<bool>)
    ensures
        r == Some(true) <==> s@ == "true"@,
        r == Some(false) <==> s@ == "false"@,
{
    if str_eq(s, "true") {
        proof {
            reveal_strlit("true");
            reveal_strlit("false");
            assert("true"@.len() == 4);
            assert("false"@.len() == 5);
            assert(s@ != "false"@);
        }
        Some(true)
    } else if str_eq(s, "false") {
        proof {
            reveal_strlit("true");
            reveal_strlit("false");
            assert("true"@.len() == 4);
            assert("false"@.len() == 5);
            assert(s@ != "true"@);
        }
        Some(false)
    } else {
        None
    }
}

/// Character-for-character string equality.
pub fn str_eq(a: &str, b: &str) -> (r: bool)
    ensures
        r <==> a@ == b@,
{
    let na = a.unicode_len();
    let nb = b.unicode_len();
    if na != nb {
        return false;
    }
    let mut i: usize = 0;
    while i < na
        invariant
            na == a@.len(),
            na == b@.len(),
            i <= na,
            forall|j: int| 0 <= j < i ==> a@[j] == b@[j],
        decreases na - i,
    {
        if a.get_char(i) != b.get_char(i) {
            return false;
        }
        i += 1;
    }
    proof {
        assert(a@ =~= b@);
    }
    true
}

} // verus!
