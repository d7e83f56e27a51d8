//! Core functions that look for a substring: position, replace and split.
use vstd::prelude::*;
use vstd::string::*;
use crate::text::{chars_of, push_char, string_of};

verus! {

/// `needle` stands in `hay` from index `i` on.
pub open spec fn occurs_at(hay: Seq<char>, needle: Seq<char>, i: int) -> bool {
    0 <= i && i + needle.len() <= hay.len() && hay.subrange(i, i + needle.len()) == needle
}

/// `needle` stands somewhere in `hay`.
pub open spec fn occurs_in(hay: Seq<char>, needle: Seq<char>) -> bool {
    exists|i: int| occurs_at(hay, needle, i)
}

/// Whether `n` stands in `h` from index `i` on.
fn matches_at(h: &Vec<char>, n: &Vec<char>, i: usize) -> (r: bool)
    requires
        i + n@.len() <= h@.len(),
    ensures
        r == occurs_at(h@, n@, i as int),
{
    let m = n.len();
    let mut k: usize = 0;
    while k < m
        invariant
            i + m <= h.len(),
            m == n@.len(),
            k <= m,
            forall|t: int| 0 <= t < k ==> h@[i + t] == n@[t],
        decreases m - k,
    {
        if h[i + k] != n[k] {
            assert(h@.subrange(i as int, i + m)[k as int] != n@[k as int]);
            return false;
        }
        k += 1;
    }
    assert(h@.subrange(i as int, i + m) =~= n@);
    true
}

/// SQL `POSITION(needle IN haystack)`: the 1-based index of the first
/// occurrence, 0 where there is none.
pub fn position__(needle: String, haystack: String) -> (r: i32)
    requires
        haystack@.len() < i32::MAX,
    ensures
        r >= 0,
        r == 0 <==> !occurs_in(haystack@, needle@),
        r > 0 ==> occurs_at(haystack@, needle@, r - 1),
        forall|i: int| 0 <= i < r - 1 ==> !occurs_at(haystack@, needle@, i),
{
    let h = chars_of(haystack.as_str());
    let n = chars_of(needle.as_str());
    if n.len() > h.len() {
        return 0;
    }
    let last = h.len() - n.len();
    let mut i: usize = 0;
    while i <= last
        invariant
            last + n@.len() == h@.len(),
            h@ == haystack@,
            n@ == needle@,
            h@.len() < i32::MAX,
            i <= last + 1,
            forall|j: int| 0 <= j < i ==> !occurs_at(h@, n@, j),
        decreases last + 1 - i,
    {
        if matches_at(&h, &n, i) {
            return (i + 1) as i32;
        }
        i += 1;
    }
    0
}

/// `hay` with each occurrence of `needle`, left to right and not
/// overlapping, replaced by `rep`. An empty `needle` occurs before each
/// character and at the end.
pub open spec fn replace_spec(hay: Seq<char>, needle: Seq<char>, rep: Seq<char>) -> Seq<char>
    decreases hay.len(),
{
    if needle.len() == 0 {
        if hay.len() == 0 {
            rep
        } else {
            rep + seq![hay[0]] + replace_spec(hay.drop_first(), needle, rep)
        }
    } else if hay.len() >= needle.len() && hay.subrange(0, needle.len() as int) == needle {
        rep + replace_spec(hay.subrange(needle.len() as int, hay.len() as int), needle, rep)
    } else if hay.len() == 0 {
        hay
    } else {
        seq![hay[0]] + replace_spec(hay.drop_first(), needle, rep)
    }
}

/// SQL `REPLACE(haystack, needle, replacement)`.
pub fn replace___(haystack: String, needle: String, replacement: String) -> (r: String)
    ensures
        r@ == replace_spec(haystack@, needle@, replacement@),
{
    let h = chars_of(haystack.as_str());
    let n = chars_of(needle.as_str());
    let hl = h.len();
    let nl = n.len();
    let mut out = String::new();
    let mut i: usize = 0;
    assert(h@.subrange(0, hl as int) =~= h@);
    while i < hl
        invariant
            hl == h@.len(),
            nl == n@.len(),
            h@ == haystack@,
            n@ == needle@,
            i <= hl,
            out@ + replace_spec(h@.subrange(i as int, hl as int), n@, replacement@) == replace_spec(
                h@,
                n@,
                replacement@,
            ),
        decreases hl - i,
    {
        let rest = Ghost(h@.subrange(i as int, hl as int));
        assert(rest@.drop_first() =~= h@.subrange(i + 1, hl as int));
        if nl == 0 {
            let ghost before = out@;
            out.append(replacement.as_str());
            push_char(&mut out, h[i]);
            assert(out@ + replace_spec(h@.subrange(i + 1, hl as int), n@, replacement@) =~= before
                + replace_spec(rest@, n@, replacement@));
            i += 1;
        } else if nl <= hl - i && matches_at(&h, &n, i) {
            let ghost before = out@;
            assert(rest@.subrange(0, nl as int) =~= h@.subrange(i as int, i + nl));
            assert(rest@.subrange(nl as int, rest@.len() as int) =~= h@.subrange(i + nl, hl as int));
            out.append(replacement.as_str());
            assert(out@ + replace_spec(h@.subrange(i + nl, hl as int), n@, replacement@) =~= before
                + replace_spec(rest@, n@, replacement@));
            i += nl;
        } else {
            let ghost before = out@;
            proof {
                if nl <= hl - i {
                    assert(rest@.subrange(0, nl as int) =~= h@.subrange(i as int, i + nl));
                }
            }
            push_char(&mut out, h[i]);
            assert(out@ + replace_spec(h@.subrange(i + 1, hl as int), n@, replacement@) =~= before
                + replace_spec(rest@, n@, replacement@));
            i += 1;
        }
    }
    if nl == 0 {
        out.append(replacement.as_str());
    }
    proof {
        let e = h@.subrange(i as int, hl as int);
        assert(e.len() == 0);
        if nl > 0 {
            assert(out@ =~= out@ + e);
        }
    }
    out
}


/// The views of a sequence of strings.
pub open spec fn views(v: Seq<String>) -> Seq<Seq<char>> {
    v.map_values(|x: String| x@)
}

/// The pieces of `s` between occurrences of a non-empty `sep`, left to
/// right, where `cur` is the piece read so far.
pub open spec fn split_from(s: Seq<char>, sep: Seq<char>, cur: Seq<char>) -> Seq<Seq<char>>
    decreases s.len(),
{
    if s.len() == 0 {
        seq![cur]
    } else if sep.len() > 0 && s.len() >= sep.len() && s.subrange(0, sep.len() as int) == sep {
        seq![cur] + split_from(s.subrange(sep.len() as int, s.len() as int), sep, Seq::empty())
    } else {
        split_from(s.drop_first(), sep, cur.push(s[0]))
    }
}

/// The pieces of `s` between occurrences of `sep`. An empty `sep` cuts
/// before each character and at the end, so that the first and the last
/// piece are empty.
pub open spec fn split_spec(s: Seq<char>, sep: Seq<char>) -> Seq<Seq<char>> {
    if sep.len() == 0 {
        seq![Seq::empty()] + s.map_values(|c: char| seq![c]) + seq![Seq::empty()]
    } else {
        split_from(s, sep, Seq::empty())
    }
}

/// Appends a piece to a vector of strings.
fn push_piece(out: &mut Vec<String>, piece: String)
    ensures
        views(final(out)@) == views(old(out)@).push(piece@),
{
    out.push(piece);
    assert(views(out@) =~= views(old(out)@).push(piece@));
}

/// SQL `SPLIT(source, separators)`: the pieces of `source` between
/// occurrences of the string `separators`.
pub fn split2__(source: String, separators: String) -> (r: Vec<String>)
    ensures
        views(r@) == split_spec(source@, separators@),
{
    let h = chars_of(source.as_str());
    let n = chars_of(separators.as_str());
    let hl = h.len();
    let nl = n.len();
    let mut out: Vec<String> = Vec::new();
    let mut i: usize = 0;
    if nl == 0 {
        push_piece(&mut out, String::new());
        while i < hl
            invariant
                hl == h@.len(),
                h@ == source@,
                i <= hl,
                views(out@) == seq![Seq::<char>::empty()] + h@.subrange(0, i as int).map_values(
                    |c: char| seq![c],
                ),
            decreases hl - i,
        {
            let mut piece = String::new();
            push_char(&mut piece, h[i]);
            assert(piece@ =~= seq![h@[i as int]]);
            push_piece(&mut out, piece);
            assert(h@.subrange(0, i + 1).map_values(|c: char| seq![c]) =~= h@.subrange(
                0,
                i as int,
            ).map_values(|c: char| seq![c]).push(seq![h@[i as int]]));
            i += 1;
        }
        push_piece(&mut out, String::new());
        assert(h@.subrange(0, hl as int) =~= h@);
        return out;
    }
    let mut start: usize = 0;
    assert(h@.subrange(0, hl as int) =~= h@);
    assert(h@.subrange(0, 0) =~= Seq::<char>::empty());
    assert(views(out@) + split_from(h@, n@, Seq::empty()) =~= split_from(h@, n@, Seq::empty()));
    while i < hl
        invariant
            hl == h@.len(),
            nl == n@.len(),
            nl > 0,
            h@ == source@,
            n@ == separators@,
            start <= i <= hl,
            views(out@) + split_from(
                h@.subrange(i as int, hl as int),
                n@,
                h@.subrange(start as int, i as int),
            ) == split_spec(h@, n@),
        decreases hl - i,
    {
        let rest = Ghost(h@.subrange(i as int, hl as int));
        let ghost cur = h@.subrange(start as int, i as int);
        if nl <= hl - i && matches_at(&h, &n, i) {
            let ghost before = views(out@);
            assert(rest@.subrange(0, nl as int) =~= h@.subrange(i as int, i + nl));
            assert(rest@.subrange(nl as int, rest@.len() as int) =~= h@.subrange(i + nl, hl as int));
            let piece = string_of(&h, start, i);
            push_piece(&mut out, piece);
            i += nl;
            start = i;
            assert(h@.subrange(start as int, i as int) =~= Seq::<char>::empty());
            assert(views(out@) + split_from(h@.subrange(i as int, hl as int), n@, Seq::empty())
                =~= before + split_from(rest@, n@, cur));
        } else {
            proof {
                if nl <= hl - i {
                    assert(rest@.subrange(0, nl as int) =~= h@.subrange(i as int, i + nl));
                }
                assert(rest@.drop_first() =~= h@.subrange(i + 1, hl as int));
                assert(cur.push(rest@[0]) =~= h@.subrange(start as int, i + 1));
            }
            i += 1;
        }
    }
    let piece = string_of(&h, start, hl);
    let ghost before = views(out@);
    push_piece(&mut out, piece);
    assert(views(out@) =~= before + split_from(h@.subrange(hl as int, hl as int), n@, h@.subrange(start as int, hl as int)));
    out
}

/// SQL `SPLIT(source)`: the pieces of `source` between commas.
pub fn split1_(source: String) -> (r: Vec<String>)
    ensures
        views(r@) == split_spec(source@, seq![',']),
{
    let comma = String::from_str(",");
    proof {
        reveal_strlit(",");
        assert(comma@ =~= seq![',']);
    }
    split2__(source, comma)
}

} // verus!
