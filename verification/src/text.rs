//! Character-level string helpers: equality, splitting on a separator and
//! trimming white space, each stated over `Seq<char>`.

use vstd::prelude::*;
use vstd::string::*;

verus! {

/// `true` when the `len(sep)` characters of `s` starting at `i` spell `sep`.
pub open spec fn occurs_at(s: Seq<char>, sep: Seq<char>, i: int) -> bool {
    0 <= i && i + sep.len() <= s.len() && s.subrange(i, i + sep.len()) == sep
}

/// The pieces of `s` between the non-overlapping, leftmost occurrences of
/// `sep`, scanning from position `i` inside the piece that starts at `start`.
pub open spec fn split_from(s: Seq<char>, sep: Seq<char>, start: int, i: int) -> Seq<Seq<char>>
    recommends
        sep.len() > 0,
        0 <= start <= i <= s.len(),
    decreases s.len() - i,
{
    if sep.len() == 0 || i + sep.len() > s.len() || i < 0 {
        seq![s.subrange(start, s.len() as int)]
    } else if occurs_at(s, sep, i) {
        seq![s.subrange(start, i)] + split_from(s, sep, i + sep.len(), i + sep.len())
    } else {
        split_from(s, sep, start, i + 1)
    }
}

/// What `str::split` with a string pattern yields: the pieces of `s`
/// separated by `sep`.
pub open spec fn split_seq(s: Seq<char>, sep: Seq<char>) -> Seq<Seq<char>> {
    split_from(s, sep, 0, 0)
}

/// The pieces joined back together with `sep` between consecutive pieces.
pub open spec fn join_seq(pieces: Seq<Seq<char>>, sep: Seq<char>) -> Seq<char>
    decreases pieces.len(),
{
    if pieces.len() == 0 {
        seq![]
    } else if pieces.len() == 1 {
        pieces[0]
    } else {
        pieces[0] + sep + join_seq(pieces.drop_first(), sep)
    }
}

/// Character-wise equality of two string slices.
pub fn str_eq(a: &str, b: &str) -> (r: bool)
    ensures
        r == (a@ == b@),
{
    let n = a.unicode_len();
    let m = b.unicode_len();
    if n != m {
        return false;
    }
    let mut i: usize = 0;
    while i < n
        invariant
            n == a@.len(),
            m == b@.len(),
            n == m,
            i <= n,
            forall|j: int| 0 <= j < i ==> a@[j] == b@[j],
        decreases n - i,
    {
        if a.get_char(i) != b.get_char(i) {
            return false;
        }
        i = i + 1;
    }
    assert(a@ =~= b@);
    true
}


/// Whether `sep` occurs in `s` at character position `i`.
fn occurs_at_exec(s: &str, sep: &str, i: usize, n: usize, m: usize) -> (r: bool)
    requires
        n == s@.len(),
        m == sep@.len(),
        i + m <= n,
    ensures
        r == occurs_at(s@, sep@, i as int),
{
    let mut j: usize = 0;
    while j < m
        invariant
            n == s@.len(),
            m == sep@.len(),
            i + m <= n,
            j <= m,
            forall|k: int| 0 <= k < j ==> s@[i + k] == sep@[k],
        decreases m - j,
    {
        if s.get_char(i + j) != sep.get_char(j) {
            assert(s@.subrange(i as int, i + m)[j as int] != sep@[j as int]);
            return false;
        }
        j = j + 1;
    }
    assert(s@.subrange(i as int, i + m) =~= sep@);
    true
}

/// Splits `s` on every non-overlapping occurrence of `sep`, from the left,
/// as `str::split` does with a string pattern.
pub fn split(s: &str, sep: &str) -> (parts: Vec<String>)
    requires
        sep@.len() > 0,
    ensures
        parts@.map_values(|p: String| p@) == split_seq(s@, sep@),
{
    let n = s.unicode_len();
    let m = sep.unicode_len();
    let mut parts: Vec<String> = Vec::new();
    let mut start: usize = 0;
    let mut i: usize = 0;
    while i <= n && m <= n - i
        invariant
            n == s@.len(),
            m == sep@.len(),
            m > 0,
            start <= i <= n,
            parts@.map_values(|p: String| p@) + split_from(s@, sep@, start as int, i as int)
                == split_seq(s@, sep@),
        decreases n - i,
    {
        let ghost before = parts@.map_values(|p: String| p@);
        if occurs_at_exec(s, sep, i, n, m) {
            let piece = s.substring_char(start, i).to_owned();
            parts.push(piece);
            assert(parts@.map_values(|p: String| p@) =~= before.push(s@.subrange(
                start as int,
                i as int,
            )));
            assert(split_from(s@, sep@, start as int, i as int) == seq![
                s@.subrange(start as int, i as int),
            ] + split_from(s@, sep@, i + m, i + m));
            assert(before + split_from(s@, sep@, start as int, i as int) =~= before.push(
                s@.subrange(start as int, i as int),
            ) + split_from(s@, sep@, i + m, i + m));
            i = i + m;
            start = i;
        } else {
            i = i + 1;
        }
    }
    let ghost before = parts@.map_values(|p: String| p@);
    let last = s.substring_char(start, n).to_owned();
    parts.push(last);
    assert(parts@.map_values(|p: String| p@) =~= before.push(s@.subrange(start as int, n as int)));
    assert(split_from(s@, sep@, start as int, i as int) == seq![
        s@.subrange(start as int, n as int),
    ]);
    assert(before + seq![s@.subrange(start as int, n as int)] =~= before.push(
        s@.subrange(start as int, n as int),
    ));
    parts
}


proof fn lemma_split_from_nonempty(s: Seq<char>, sep: Seq<char>, start: int, i: int)
    ensures
        split_from(s, sep, start, i).len() >= 1,
    decreases s.len() - i,
{
    if sep.len() == 0 || i + sep.len() > s.len() || i < 0 {
    } else if occurs_at(s, sep, i) {
        lemma_split_from_nonempty(s, sep, i + sep.len(), i + sep.len());
    } else {
        lemma_split_from_nonempty(s, sep, start, i + 1);
    }
}

proof fn lemma_join_split_from(s: Seq<char>, sep: Seq<char>, start: int, i: int)
    requires
        sep.len() > 0,
        0 <= start <= i <= s.len(),
    ensures
        join_seq(split_from(s, sep, start, i), sep) == s.subrange(start, s.len() as int),
    decreases s.len() - i,
{
    let n = s.len() as int;
    let m = sep.len() as int;
    if i + m > n {
    } else if occurs_at(s, sep, i) {
        let rest = split_from(s, sep, i + m, i + m);
        lemma_split_from_nonempty(s, sep, i + m, i + m);
        lemma_join_split_from(s, sep, i + m, i + m);
        let pieces = seq![s.subrange(start, i)] + rest;
        assert(pieces.drop_first() =~= rest);
        assert(pieces[0] == s.subrange(start, i));
        assert(join_seq(pieces, sep) == s.subrange(start, i) + sep + join_seq(rest, sep));
        assert(s.subrange(start, i) + sep + s.subrange(i + m, n) =~= s.subrange(start, n));
    } else {
        lemma_join_split_from(s, sep, start, i + 1);
    }
}

/// Splitting never loses a character: joining the pieces of `s` with `sep`
/// between them gives `s` back.
pub proof fn lemma_join_split(s: Seq<char>, sep: Seq<char>)
    requires
        sep.len() > 0,
    ensures
        join_seq(split_seq(s, sep), sep) == s,
{
    lemma_join_split_from(s, sep, 0, 0);
    assert(s.subrange(0, s.len() as int) =~= s);
}

} // verus!
