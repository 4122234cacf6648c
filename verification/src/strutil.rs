//! Splitting a string at a separator character, with an exact specification.

use vstd::prelude::*;
use vstd::string::StrSliceExecFns;

verus! {

/// The pieces of `s` cut at every occurrence of the separator `sep`.
///
/// The empty sequence yields one empty piece, and every separator ends the
/// current piece and opens a new one, matching `str::split` on a `char`.
pub open spec fn spec_split(s: Seq<char>, sep: char) -> Seq<Seq<char>>
    decreases s.len(),
{
    if s.len() == 0 {
        seq![Seq::<char>::empty()]
    } else if s[0] == sep {
        seq![Seq::<char>::empty()].add(spec_split(s.drop_first(), sep))
    } else {
        let rest = spec_split(s.drop_first(), sep);
        seq![seq![s[0]].add(rest[0])].add(rest.drop_first())
    }
}

pub proof fn lemma_split_len(s: Seq<char>, sep: char)
    ensures
        spec_split(s, sep).len() >= 1,
    decreases s.len(),
{
    if s.len() == 0 {
    } else if s[0] == sep {
        lemma_split_len(s.drop_first(), sep);
    } else {
        lemma_split_len(s.drop_first(), sep);
    }
}

/// A sequence without the separator is a single piece.
pub proof fn lemma_split_no_sep(s: Seq<char>, sep: char)
    requires
        forall|j: int| 0 <= j < s.len() ==> s[j] != sep,
    ensures
        spec_split(s, sep) == seq![s],
    decreases s.len(),
{
    if s.len() == 0 {
        assert(spec_split(s, sep) =~~= seq![s]);
    } else {
        lemma_split_no_sep(s.drop_first(), sep);
        lemma_split_len(s.drop_first(), sep);
        assert(spec_split(s, sep) =~~= seq![s]);
    }
}

/// Cutting at the first separator: the piece before it, then the split of
/// what follows it.
pub proof fn lemma_split_at_first(s: Seq<char>, sep: char, i: int)
    requires
        0 <= i < s.len(),
        s[i] == sep,
        forall|j: int| 0 <= j < i ==> s[j] != sep,
    ensures
        spec_split(s, sep) == seq![s.take(i)].add(spec_split(s.skip(i + 1), sep)),
    decreases i,
{
    if i == 0 {
        assert(s.skip(1) =~= s.drop_first());
        assert(spec_split(s, sep) =~~= seq![s.take(0)].add(spec_split(s.skip(1), sep)));
    } else {
        let d = s.drop_first();
        assert(d[i - 1] == sep);
        lemma_split_at_first(d, sep, i - 1);
        let rest = spec_split(d, sep);
        assert(rest[0] == d.take(i - 1));
        assert(rest.drop_first() =~= spec_split(d.skip(i), sep));
        assert(d.skip(i) =~= s.skip(i + 1));
        assert(seq![s[0]].add(d.take(i - 1)) =~= s.take(i));
        assert(spec_split(s, sep) =~~= seq![s.take(i)].add(spec_split(s.skip(i + 1), sep)));
    }
}

/// Cuts `s` at every occurrence of `sep`, as `str::split` does.
pub fn split_on<'a>(s: &'a str, sep: char) -> (r: Vec<&'a str>)
    ensures
        r@.map_values(|p: &str| p@) == spec_split(s@, sep),
{
    let n = s.unicode_len();
    let mut r: Vec<&'a str> = Vec::new();
    let mut start: usize = 0;
    let mut i: usize = 0;
    proof {
        assert(s@.skip(0) =~= s@);
        assert(spec_split(s@, sep) =~~= r@.map_values(|p: &str| p@).add(
            spec_split(s@.skip(0), sep),
        ));
    }
    while i < n
        invariant
            n == s@.len(),
            start <= i <= n,
            forall|j: int| start <= j < i ==> s@[j] != sep,
            spec_split(s@, sep) == r@.map_values(|p: &str| p@).add(
                spec_split(s@.skip(start as int), sep),
            ),
        decreases n - i,
    {
        if s.get_char(i) == sep {
            let piece = s.substring_char(start, i);
            proof {
                let tail = s@.skip(start as int);
                assert(tail[i - start] == sep);
                lemma_split_at_first(tail, sep, i - start);
                assert(tail.take(i - start) =~= s@.subrange(start as int, i as int));
                assert(tail.skip(i - start + 1) =~= s@.skip(i as int + 1));
            }
            let ghost old_r = r@;
            r.push(piece);
            proof {
                let f = |p: &str| p@;
                assert(r@.map_values(f) =~= old_r.map_values(f).push(piece@));
                assert(spec_split(s@, sep) =~~= r@.map_values(f).add(
                    spec_split(s@.skip(i as int + 1), sep),
                ));
            }
            start = i + 1;
        }
        i += 1;
    }
    let piece = s.substring_char(start, n);
    proof {
        lemma_split_no_sep(s@.skip(start as int), sep);
        assert(piece@ =~= s@.skip(start as int));
    }
    let ghost old_r = r@;
    r.push(piece);
    proof {
        let f = |p: &str| p@;
        assert(r@.map_values(f) =~= old_r.map_values(f).push(piece@));
        assert(spec_split(s@, sep) =~~= r@.map_values(f));
    }
    r
}

} // verus!
