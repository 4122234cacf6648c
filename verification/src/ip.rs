//! IP addresses for listen-address overrides, with a verified parser for
//! the usual textual forms: dotted-quad IPv4, and IPv6 as colon-separated
//! hexadecimal groups with at most one `::` gap and an optional embedded
//! dotted quad in the last position.

use vstd::prelude::*;
use vstd::string::StrSliceExecFns;
use crate::strutil::{spec_split, split_on, lemma_split_len};
use crate::numeric::{is_dec_digit, dec_val};
use crate::address::{is_hex_digit, hex_digit_val};

verus! {

/// An IP address, version 4 or 6; groups are stored big endian.
#[derive(Clone, Copy, Debug, PartialEq, Eq, Structural)]
pub enum IpAddress {
    V4(u8, u8, u8, u8),
    V6(u16, u16, u16, u16, u16, u16, u16, u16),
}

/// The value of a big-endian hexadecimal digit string.
pub open spec fn hexseq_val(s: Seq<char>) -> int
    decreases s.len(),
{
    if s.len() == 0 {
        0
    } else {
        hexseq_val(s.drop_last()) * 16 + hex_digit_val(s.last())
    }
}

/// A decimal IPv4 octet: one to three digits, no leading zero, at most 255.
pub open spec fn octet_ok(p: Seq<char>) -> bool {
    &&& 1 <= p.len() <= 3
    &&& (forall|i: int| 0 <= i < p.len() ==> is_dec_digit(p[i]))
    &&& dec_val(p) <= 255
    &&& (p[0] == '0' ==> p.len() == 1)
}

/// The four octets of a dotted-quad IPv4 literal, when `s` is one.
pub open spec fn ipv4_octets(s: Seq<char>) -> Option<Seq<u8>> {
    let ps = spec_split(s, '.');
    if ps.len() == 4 && (forall|i: int| 0 <= i < 4 ==> octet_ok(ps[i])) {
        Some(ps.map_values(|p: Seq<char>| dec_val(p) as u8))
    } else {
        None
    }
}

pub open spec fn ipv4_of(s: Seq<char>) -> Option<IpAddress> {
    match ipv4_octets(s) {
        Some(o) => Some(IpAddress::V4(o[0], o[1], o[2], o[3])),
        None => None,
    }
}

/// An IPv6 group: one to four hexadecimal digits.
pub open spec fn h16_ok(p: Seq<char>) -> bool {
    &&& 1 <= p.len() <= 4
    &&& (forall|i: int| 0 <= i < p.len() ==> is_hex_digit(p[i]))
}

pub open spec fn groups_vals(ps: Seq<Seq<char>>) -> Seq<u16> {
    ps.map_values(|p: Seq<char>| hexseq_val(p) as u16)
}

/// The groups written before a `::` gap: colon-separated plain groups, or
/// none at all when the text is empty.
pub open spec fn left_groups(t: Seq<char>) -> Option<Seq<u16>> {
    if t.len() == 0 {
        Some(Seq::<u16>::empty())
    } else {
        let ps = spec_split(t, ':');
        if forall|i: int| 0 <= i < ps.len() ==> h16_ok(ps[i]) {
            Some(groups_vals(ps))
        } else {
            None
        }
    }
}

/// A group list whose final piece may instead be an embedded dotted quad,
/// worth two groups; used after a `::` gap and for gap-free addresses.
pub open spec fn tail_groups(t: Seq<char>) -> Option<Seq<u16>> {
    if t.len() == 0 {
        Some(Seq::<u16>::empty())
    } else {
        let ps = spec_split(t, ':');
        if !(forall|i: int| 0 <= i < ps.len() - 1 ==> h16_ok(ps[i])) {
            None
        } else if h16_ok(ps.last()) {
            Some(groups_vals(ps))
        } else {
            match ipv4_octets(ps.last()) {
                Some(o) => Some(
                    groups_vals(ps.drop_last()).push((o[0] * 256 + o[1]) as u16).push(
                        (o[2] * 256 + o[3]) as u16,
                    ),
                ),
                None => None,
            }
        }
    }
}

/// A `::` gap starts at position `i`.
pub open spec fn dcolon_at(s: Seq<char>, i: int) -> bool {
    0 <= i && i + 1 < s.len() && s[i] == ':' && s[i + 1] == ':'
}

pub open spec fn has_dcolon(s: Seq<char>) -> bool {
    exists|i: int| dcolon_at(s, i)
}

pub open spec fn first_dcolon(s: Seq<char>) -> int {
    choose|i: int| dcolon_at(s, i) && (forall|j: int| 0 <= j < i ==> !dcolon_at(s, j))
}

proof fn lemma_first_dcolon(s: Seq<char>, i: int)
    requires
        dcolon_at(s, i),
        forall|j: int| 0 <= j < i ==> !dcolon_at(s, j),
    ensures
        first_dcolon(s) == i,
{
    let k = first_dcolon(s);
    assert(dcolon_at(s, i) && (forall|j: int| 0 <= j < i ==> !dcolon_at(s, j)));
    assert(dcolon_at(s, k) && (forall|j: int| 0 <= j < k ==> !dcolon_at(s, j))) by {
        assert(exists|x: int|
            dcolon_at(s, x) && (forall|j: int| 0 <= j < x ==> !dcolon_at(s, j)));
    }
    if k < i {
        assert(!dcolon_at(s, k));
    }
    if i < k {
        assert(!dcolon_at(s, i));
    }
}

pub open spec fn v6_from(g: Seq<u16>) -> IpAddress {
    IpAddress::V6(g[0], g[1], g[2], g[3], g[4], g[5], g[6], g[7])
}

/// The address denoted by an IPv6 literal: with a `::` gap, the groups on
/// its two sides joined by enough zero groups to make eight, the gap
/// standing for at least one; without a gap, exactly eight groups.
pub open spec fn ipv6_of(s: Seq<char>) -> Option<IpAddress> {
    if has_dcolon(s) {
        let i = first_dcolon(s);
        let lg = left_groups(s.take(i));
        let rg = tail_groups(s.skip(i + 2));
        if lg is Some && rg is Some && lg->0.len() + rg->0.len() <= 7 {
            Some(v6_from(lg->0 + Seq::new((8 - lg->0.len() - rg->0.len()) as nat, |k: int| 0u16)
                + rg->0))
        } else {
            None
        }
    } else {
        match tail_groups(s) {
            Some(g) => if g.len() == 8 {
                Some(v6_from(g))
            } else {
                None
            },
            None => None,
        }
    }
}

/// The address denoted by `s`: the IPv4 reading where there is one, the
/// IPv6 reading otherwise.
pub open spec fn ip_of(s: Seq<char>) -> Option<IpAddress> {
    if ipv4_of(s) is Some {
        ipv4_of(s)
    } else {
        ipv6_of(s)
    }
}

proof fn lemma_dec_val_small(s: Seq<char>)
    requires
        forall|i: int| 0 <= i < s.len() ==> is_dec_digit(s[i]),
    ensures
        0 <= dec_val(s),
        s.len() <= 1 ==> dec_val(s) < 10,
        s.len() <= 2 ==> dec_val(s) < 100,
        s.len() <= 3 ==> dec_val(s) < 1000,
    decreases s.len(),
{
    if s.len() > 0 {
        lemma_dec_val_small(s.drop_last());
    }
}

proof fn lemma_hexseq_val_small(s: Seq<char>)
    requires
        forall|i: int| 0 <= i < s.len() ==> is_hex_digit(s[i]),
    ensures
        0 <= hexseq_val(s),
        s.len() <= 1 ==> hexseq_val(s) < 0x10,
        s.len() <= 2 ==> hexseq_val(s) < 0x100,
        s.len() <= 3 ==> hexseq_val(s) < 0x1000,
        s.len() <= 4 ==> hexseq_val(s) < 0x10000,
    decreases s.len(),
{
    if s.len() > 0 {
        lemma_hexseq_val_small(s.drop_last());
    }
}

proof fn lemma_hexseq_val_take(s: Seq<char>, i: int)
    requires
        0 <= i < s.len(),
    ensures
        hexseq_val(s.take(i + 1)) == hexseq_val(s.take(i)) * 16 + hex_digit_val(s[i]),
{
    assert(s.take(i + 1).drop_last() =~= s.take(i));
    assert(s.take(i + 1).last() == s[i]);
}

/// Parses one decimal octet of a dotted quad.
fn parse_octet(p: &str) -> (r: Option<u8>)
    ensures
        r is Some <==> octet_ok(p@),
        r is Some ==> r->0 as int == dec_val(p@),
{
    let n = p.unicode_len();
    if n < 1 || n > 3 {
        return None;
    }
    if n > 1 && p.get_char(0) == '0' {
        return None;
    }
    let mut v: u16 = 0;
    let mut i: usize = 0;
    while i < n
        invariant
            n == p@.len(),
            1 <= n <= 3,
            i <= n,
            forall|j: int| 0 <= j < i ==> is_dec_digit(p@[j]),
            v as int == dec_val(p@.take(i as int)),
            v <= 999,
        decreases n - i,
    {
        let c = p.get_char(i);
        if !('0' <= c && c <= '9') {
            return None;
        }
        proof {
            lemma_dec_val_small(p@.take(i as int));
            crate::numeric::lemma_dec_val_take(p@, i as int);
        }
        v = v * 10 + ((c as u32 as u16) - ('0' as u32 as u16));
        i += 1;
    }
    proof {
        assert(p@.take(n as int) =~= p@);
    }
    if v > 255 {
        return None;
    }
    Some(v as u8)
}

/// Parses one hexadecimal IPv6 group.
fn parse_h16(p: &str) -> (r: Option<u16>)
    ensures
        r is Some <==> h16_ok(p@),
        r is Some ==> r->0 as int == hexseq_val(p@),
{
    let n = p.unicode_len();
    if n < 1 || n > 4 {
        return None;
    }
    let mut v: u16 = 0;
    let mut i: usize = 0;
    while i < n
        invariant
            n == p@.len(),
            1 <= n <= 4,
            i <= n,
            forall|j: int| 0 <= j < i ==> is_hex_digit(p@[j]),
            v as int == hexseq_val(p@.take(i as int)),
        decreases n - i,
    {
        let c = p.get_char(i);
        if !(('0' <= c && c <= '9') || ('a' <= c && c <= 'f') || ('A' <= c && c <= 'F')) {
            return None;
        }
        proof {
            lemma_hexseq_val_small(p@.take(i as int));
            lemma_hexseq_val_take(p@, i as int);
        }
        let d: u16 = if '0' <= c && c <= '9' {
            (c as u32 as u16) - ('0' as u32 as u16)
        } else if 'a' <= c && c <= 'f' {
            (c as u32 as u16) - ('a' as u32 as u16) + 10
        } else {
            (c as u32 as u16) - ('A' as u32 as u16) + 10
        };
        v = v * 16 + d;
        i += 1;
    }
    proof {
        assert(p@.take(n as int) =~= p@);
    }
    Some(v)
}

/// Parses a dotted-quad IPv4 literal.
pub fn parse_ipv4(s: &str) -> (r: Option<IpAddress>)
    ensures
        r == ipv4_of(s@),
{
    let ps = split_on(s, '.');
    let ghost sps = spec_split(s@, '.');
    proof {
        assert(ps@.len() == sps.len()) by {
            assert(ps@.map_values(|p: &str| p@).len() == sps.len());
        }
    }
    if ps.len() != 4 {
        return None;
    }
    proof {
        assert forall|i: int| 0 <= i < 4 implies ps@[i]@ == sps[i] by {
            assert(ps@.map_values(|p: &str| p@)[i] == sps[i]);
        }
    }
    let a = match parse_octet(ps[0]) {
        Some(v) => v,
        None => {
            return None;
        },
    };
    let b = match parse_octet(ps[1]) {
        Some(v) => v,
        None => {
            return None;
        },
    };
    let c = match parse_octet(ps[2]) {
        Some(v) => v,
        None => {
            return None;
        },
    };
    let d = match parse_octet(ps[3]) {
        Some(v) => v,
        None => {
            return None;
        },
    };
    proof {
        let o = ipv4_octets(s@)->0;
        assert(o[0] == dec_val(sps[0]) as u8);
        assert(o[1] == dec_val(sps[1]) as u8);
        assert(o[2] == dec_val(sps[2]) as u8);
        assert(o[3] == dec_val(sps[3]) as u8);
    }
    Some(IpAddress::V4(a, b, c, d))
}

/// Parses the groups before a `::` gap.
fn parse_left_groups(t: &str) -> (r: Option<Vec<u16>>)
    ensures
        r is Some <==> left_groups(t@) is Some,
        r is Some ==> r->0@ == left_groups(t@)->0,
{
    let n = t.unicode_len();
    if n == 0 {
        return Some(Vec::new());
    }
    let ps = split_on(t, ':');
    let ghost sps = spec_split(t@, ':');
    proof {
        assert(ps@.map_values(|p: &str| p@).len() == sps.len());
    }
    let mut out: Vec<u16> = Vec::new();
    let mut i: usize = 0;
    while i < ps.len()
        invariant
            t@.len() > 0,
            ps@.map_values(|p: &str| p@) == sps,
            ps@.len() == sps.len(),
            sps == spec_split(t@, ':'),
            i <= ps@.len(),
            forall|j: int| 0 <= j < i ==> h16_ok(sps[j]),
            out@.len() == i,
            forall|j: int| 0 <= j < i ==> out@[j] as int == hexseq_val(sps[j]),
        decreases ps@.len() - i,
    {
        proof {
            assert(ps@.map_values(|p: &str| p@)[i as int] == sps[i as int]);
        }
        match parse_h16(ps[i]) {
            Some(v) => {
                out.push(v);
            },
            None => {
                return None;
            },
        }
        i += 1;
    }
    proof {
        assert forall|j: int| 0 <= j < sps.len() implies out@[j] == groups_vals(sps)[j] by {
            lemma_hexseq_val_small(sps[j]);
        }
        assert(out@ =~= groups_vals(sps));
    }
    Some(out)
}

/// Parses a group list whose final piece may be an embedded dotted quad.
fn parse_tail_groups(t: &str) -> (r: Option<Vec<u16>>)
    ensures
        r is Some <==> tail_groups(t@) is Some,
        r is Some ==> r->0@ == tail_groups(t@)->0,
{
    let n = t.unicode_len();
    if n == 0 {
        return Some(Vec::new());
    }
    let ps = split_on(t, ':');
    let ghost sps = spec_split(t@, ':');
    proof {
        assert(ps@.map_values(|p: &str| p@).len() == sps.len());
        lemma_split_len(t@, ':');
    }
    let mut out: Vec<u16> = Vec::new();
    let mut i: usize = 0;
    let front = ps.len() - 1;
    while i < front
        invariant
            t@.len() > 0,
            ps@.map_values(|p: &str| p@) == sps,
            ps@.len() == sps.len(),
            sps == spec_split(t@, ':'),
            sps.len() >= 1,
            front == ps@.len() - 1,
            i <= front,
            forall|j: int| 0 <= j < i ==> h16_ok(sps[j]),
            out@.len() == i,
            forall|j: int| 0 <= j < i ==> out@[j] as int == hexseq_val(sps[j]),
        decreases front - i,
    {
        proof {
            assert(ps@.map_values(|p: &str| p@)[i as int] == sps[i as int]);
        }
        match parse_h16(ps[i]) {
            Some(v) => {
                out.push(v);
            },
            None => {
                return None;
            },
        }
        i += 1;
    }
    proof {
        assert(ps@.map_values(|p: &str| p@)[front as int] == sps[front as int]);
        assert(sps[front as int] == sps.last());
    }
    let last = ps[front];
    match parse_h16(last) {
        Some(v) => {
            out.push(v);
            proof {
                assert forall|j: int| 0 <= j < sps.len() implies out@[j] == groups_vals(sps)[j]
                by {
                    lemma_hexseq_val_small(sps[j]);
                }
                assert(out@ =~= groups_vals(sps));
            }
            Some(out)
        },
        None => {
            match parse_ipv4(last) {
                Some(IpAddress::V4(a, b, c, d)) => {
                    out.push((a as u16) * 256 + (b as u16));
                    out.push((c as u16) * 256 + (d as u16));
                    proof {
                        let o = ipv4_octets(sps.last())->0;
                        let expect = groups_vals(sps.drop_last()).push(
                            (o[0] * 256 + o[1]) as u16,
                        ).push((o[2] * 256 + o[3]) as u16);
                        assert forall|j: int| 0 <= j < front implies out@[j] == expect[j] by {
                            lemma_hexseq_val_small(sps[j]);
                            assert(sps.drop_last()[j] == sps[j]);
                        }
                        assert(out@ =~= expect);
                    }
                    Some(out)
                },
                Some(IpAddress::V6(g0, g1, g2, g3, g4, g5, g6, g7)) => {
                    proof {
                        assert(false);
                    }
                    None
                },
                None => None,
            }
        },
    }
}

/// Finds the first `::` gap.
fn find_dcolon(s: &str) -> (g: Option<usize>)
    ensures
        match g {
            Some(i) => dcolon_at(s@, i as int) && (forall|j: int|
                0 <= j < i ==> !dcolon_at(s@, j)),
            None => !has_dcolon(s@),
        },
{
    let n = s.unicode_len();
    if n < 2 {
        return None;
    }
    let mut i: usize = 0;
    while i + 1 < n
        invariant
            n == s@.len(),
            n >= 2,
            i + 1 <= n,
            forall|j: int| 0 <= j < i ==> !dcolon_at(s@, j),
        decreases n - i,
    {
        if s.get_char(i) == ':' && s.get_char(i + 1) == ':' {
            return Some(i);
        }
        i += 1;
    }
    proof {
        assert forall|j: int| true implies !dcolon_at(s@, j) by {
            if 0 <= j < i {
            } else {
                assert(!(0 <= j && j + 1 < s@.len() && j < i) ==> (j < 0 || j + 1 >= s@.len()
                    || j >= i));
            }
        }
    }
    None
}

/// Parses an IPv6 literal.
pub fn parse_ipv6(s: &str) -> (r: Option<IpAddress>)
    ensures
        r == ipv6_of(s@),
{
    let n = s.unicode_len();
    match find_dcolon(s) {
        Some(g) => {
            proof {
                lemma_first_dcolon(s@, g as int);
            }
            let left = s.substring_char(0, g);
            let right = s.substring_char(g + 2, n);
            proof {
                assert(left@ =~= s@.take(g as int));
                assert(right@ =~= s@.skip(g as int + 2));
            }
            let lg = match parse_left_groups(left) {
                Some(v) => v,
                None => {
                    return None;
                },
            };
            let rg = match parse_tail_groups(right) {
                Some(v) => v,
                None => {
                    return None;
                },
            };
            let ghost lg0 = lg@;
            let ghost rg0 = rg@;
            if lg.len() <= 7 && rg.len() <= 7 - lg.len() {
                let target = 8 - rg.len();
                let mut out = lg;
                while out.len() < target
                    invariant
                        lg0.len() <= target <= 8,
                        rg0.len() == 8 - target,
                        lg0.len() <= out@.len() <= target,
                        out@.take(lg0.len() as int) == lg0,
                        forall|j: int| lg0.len() <= j < out@.len() ==> out@[j] == 0u16,
                    decreases target - out.len(),
                {
                    out.push(0u16);
                    proof {
                        assert(out@.take(lg0.len() as int) =~= lg0);
                    }
                }
                let mut k: usize = 0;
                while k < rg.len()
                    invariant
                        rg@ == rg0,
                        lg0.len() <= target <= 8,
                        rg0.len() == 8 - target,
                        k <= rg0.len(),
                        out@.len() == target + k,
                        out@.take(lg0.len() as int) == lg0,
                        forall|j: int| lg0.len() <= j < target ==> out@[j] == 0u16,
                        forall|j: int| 0 <= j < k ==> out@[target + j] == rg0[j],
                    decreases rg0.len() - k,
                {
                    out.push(rg[k]);
                    proof {
                        assert(out@.take(lg0.len() as int) =~= lg0);
                    }
                    k += 1;
                }
                let ghost gseq = lg0 + Seq::new((8 - lg0.len() - rg0.len()) as nat, |k: int| 0u16)
                    + rg0;
                proof {
                    assert(out@.len() == 8);
                    assert forall|j: int| 0 <= j < 8 implies out@[j] == gseq[j] by {
                        if j < lg0.len() {
                            assert(out@.take(lg0.len() as int)[j] == out@[j]);
                        }
                    }
                    assert(out@ =~= gseq);
                }
                Some(IpAddress::V6(out[0], out[1], out[2], out[3], out[4], out[5], out[6], out[7]))
            } else {
                None
            }
        },
        None => {
            let g = match parse_tail_groups(s) {
                Some(v) => v,
                None => {
                    return None;
                },
            };
            if g.len() == 8 {
                Some(IpAddress::V6(g[0], g[1], g[2], g[3], g[4], g[5], g[6], g[7]))
            } else {
                None
            }
        },
    }
}

/// Parses an IP address: the IPv4 reading where there is one, the IPv6
/// reading otherwise.
pub fn parse_ip(s: &str) -> (r: Option<IpAddress>)
    ensures
        r == ip_of(s@),
{
    match parse_ipv4(s) {
        Some(a) => Some(a),
        None => parse_ipv6(s),
    }
}

} // verus!
