//! The fee-recipient address: a 20-byte value written as hexadecimal text.
//!
//! The accepted textual form matches the address type's `FromStr`: an
//! optional `0x` prefix, then hexadecimal digits with interspersed
//! whitespace (space, carriage return, line feed, tab) ignored, amounting
//! to exactly forty digits.

use vstd::prelude::*;
use vstd::string::StrSliceExecFns;
use crate::numeric::{is_dec_digit, dec_digit_val};

verus! {

/// A 20-byte execution-layer address.
#[derive(Clone, Debug)]
pub struct Address {
    pub bytes: Vec<u8>,
}

impl Address {
    pub open spec fn wf(self) -> bool {
        self.bytes@.len() == 20
    }
}

pub open spec fn is_hex_digit(c: char) -> bool {
    is_dec_digit(c) || ('a' <= c && c <= 'f') || ('A' <= c && c <= 'F')
}

pub open spec fn hex_digit_val(c: char) -> int {
    if is_dec_digit(c) {
        dec_digit_val(c)
    } else if 'a' <= c && c <= 'f' {
        c as int - 'a' as int + 10
    } else {
        c as int - 'A' as int + 10
    }
}

/// Whitespace that the address parser ignores between digits.
pub open spec fn is_hex_ws(c: char) -> bool {
    c == ' ' || c == '\r' || c == '\n' || c == '\t'
}

/// The input without its optional `0x` prefix.
pub open spec fn strip_hex_prefix(s: Seq<char>) -> Seq<char> {
    if s.len() >= 2 && s[0] == '0' && s[1] == 'x' {
        s.skip(2)
    } else {
        s
    }
}

/// The digits of the input, whitespace dropped.
pub open spec fn addr_digits(s: Seq<char>) -> Seq<char> {
    strip_hex_prefix(s).filter(|c: char| !is_hex_ws(c))
}

/// Whether `s` is a well-formed 20-byte address literal.
pub open spec fn addr_ok(s: Seq<char>) -> bool {
    let d = strip_hex_prefix(s);
    &&& (forall|i: int| 0 <= i < d.len() ==> is_hex_digit(d[i]) || is_hex_ws(d[i]))
    &&& addr_digits(s).len() == 40
}

/// The bytes denoted by a well-formed address literal, big endian.
pub open spec fn addr_bytes(s: Seq<char>) -> Seq<u8> {
    let h = addr_digits(s);
    Seq::new(20, |i: int| (hex_digit_val(h[2 * i]) * 16 + hex_digit_val(h[2 * i + 1])) as u8)
}

proof fn lemma_filter_push(s: Seq<char>, pred: spec_fn(char) -> bool, c: char)
    ensures
        s.push(c).filter(pred) == (if pred(c) {
            s.filter(pred).push(c)
        } else {
            s.filter(pred)
        }),
{
    reveal_with_fuel(Seq::<char>::filter, 2);
    assert(s.push(c).drop_last() =~= s);
    assert(s.push(c).last() == c);
}

fn hex_val_exec(c: char) -> (v: u8)
    requires
        is_hex_digit(c),
    ensures
        v as int == hex_digit_val(c),
{
    let u = c as u32;
    if '0' <= c && c <= '9' {
        (u - ('0' as u32)) as u8
    } else if 'a' <= c && c <= 'f' {
        (u - ('a' as u32) + 10) as u8
    } else {
        (u - ('A' as u32) + 10) as u8
    }
}

/// Parses a 20-byte address from hexadecimal text.
pub fn parse_address(s: &str) -> (r: Option<Address>)
    ensures
        r is Some <==> addr_ok(s@),
        r is Some ==> r->0.wf() && r->0.bytes@ == addr_bytes(s@),
{
    let n = s.unicode_len();
    let start: usize = if n >= 2 && s.get_char(0) == '0' && s.get_char(1) == 'x' {
        2
    } else {
        0
    };
    let ghost d = strip_hex_prefix(s@);
    proof {
        assert(d =~= s@.skip(start as int));
    }
    let ghost keep = |c: char| !is_hex_ws(c);
    let mut digs: Vec<char> = Vec::new();
    let mut i: usize = start;
    while i < n
        invariant
            n == s@.len(),
            start <= i <= n,
            d == s@.skip(start as int),
            d == strip_hex_prefix(s@),
            keep == (|c: char| !is_hex_ws(c)),
            forall|j: int| 0 <= j < i - start ==> is_hex_digit(d[j]) || is_hex_ws(d[j]),
            digs@ == d.take(i - start).filter(keep),
            forall|j: int| 0 <= j < digs@.len() ==> is_hex_digit(#[trigger] digs@[j]),
        decreases n - i,
    {
        let c = s.get_char(i);
        proof {
            assert(d[i - start] == c);
            assert(d.take(i - start + 1) =~= d.take(i - start).push(c));
            lemma_filter_push(d.take(i - start), keep, c);
        }
        if c == ' ' || c == '\r' || c == '\n' || c == '\t' {
            proof {
                assert(d.take(i - start + 1).filter(keep) == digs@);
            }
        } else if ('0' <= c && c <= '9') || ('a' <= c && c <= 'f') || ('A' <= c && c <= 'F') {
            digs.push(c);
            proof {
                assert(d.take(i - start + 1).filter(keep) == digs@);
            }
        } else {
            return None;
        }
        i += 1;
    }
    proof {
        assert(d.take(n - start) =~= d);
    }
    if digs.len() != 40 {
        return None;
    }
    let mut bytes: Vec<u8> = Vec::new();
    let mut k: usize = 0;
    while k < 20
        invariant
            k <= 20,
            digs@.len() == 40,
            digs@ == addr_digits(s@),
            forall|j: int| 0 <= j < digs@.len() ==> is_hex_digit(#[trigger] digs@[j]),
            bytes@.len() == k,
            forall|j: int| 0 <= j < k ==> bytes@[j] == addr_bytes(s@)[j],
        decreases 20 - k,
    {
        let hi = hex_val_exec(digs[2 * k]);
        let lo = hex_val_exec(digs[2 * k + 1]);
        bytes.push(hi * 16 + lo);
        k += 1;
    }
    proof {
        assert(bytes@ =~= addr_bytes(s@));
    }
    Some(Address { bytes })
}

} // verus!
