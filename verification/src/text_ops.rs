//! Character-level text operations: substring matching, delimiter search and
//! delimiter splitting, the primitives behind chip reconciliation.

use vstd::prelude::*;

verus! {

/// Holds when the pattern `p` occurs somewhere in `t`.
pub open spec fn seq_contains(t: Seq<char>, p: Seq<char>) -> bool {
    exists|i: int|
        0 <= i && i + p.len() <= t.len() && #[trigger] t.subrange(i, i + p.len() as int) == p
}

/// The fragments of `t` between non-overlapping, leftmost-first occurrences
/// of the delimiter `p`. A text without an occurrence is one fragment, so the
/// result always has at least one fragment; a delimiter occurrence at either
/// edge contributes an empty fragment there.
pub open spec fn split_spec(t: Seq<char>, p: Seq<char>) -> Seq<Seq<char>>
    recommends
        p.len() >= 1,
    decreases t.len(),
{
    if p.len() == 0 || t.len() < p.len() {
        seq![t]
    } else if t.subrange(0, p.len() as int) == p {
        seq![Seq::<char>::empty()] + split_spec(t.subrange(p.len() as int, t.len() as int), p)
    } else {
        let rest = split_spec(t.subrange(1, t.len() as int), p);
        rest.update(0, seq![t[0]] + rest[0])
    }
}

/// A split never yields an empty fragment list.
pub proof fn lemma_split_spec_len(t: Seq<char>, p: Seq<char>)
    ensures
        split_spec(t, p).len() >= 1,
    decreases t.len(),
{
    if p.len() == 0 || t.len() < p.len() {
    } else if t.subrange(0, p.len() as int) == p {
        lemma_split_spec_len(t.subrange(p.len() as int, t.len() as int), p);
    } else {
        lemma_split_spec_len(t.subrange(1, t.len() as int), p);
    }
}

/// Splitting a text in which the delimiter does not occur returns the text
/// itself as the single fragment.
pub proof fn lemma_split_spec_no_occurrence(t: Seq<char>, p: Seq<char>)
    requires
        p.len() >= 1,
        !seq_contains(t, p),
    ensures
        split_spec(t, p) == seq![t],
    decreases t.len(),
{
    if t.len() < p.len() {
    } else if t.subrange(0, p.len() as int) == p {
        assert(t.subrange(0, 0 + p.len() as int) == p);
        assert(seq_contains(t, p));
    } else {
        let tail = t.subrange(1, t.len() as int);
        assert forall|i: int| 0 <= i && i + p.len() <= tail.len() implies #[trigger] tail.subrange(
            i,
            i + p.len() as int,
        ) != p by {
            assert(tail.subrange(i, i + p.len() as int) =~= t.subrange(
                i + 1,
                i + 1 + p.len() as int,
            ));
            assert(t.subrange(i + 1, i + 1 + p.len() as int) != p);
        }
        lemma_split_spec_no_occurrence(tail, p);
        assert(split_spec(t, p) == seq![tail].update(0, seq![t[0]] + tail));
        assert(seq![t[0]] + tail =~= t);
        assert(split_spec(t, p) =~= seq![t]);
    }
}

/// Whether `p` stands in `t` exactly at character offset `at`.
pub(crate) fn match_at(t: &str, p: &str, at: usize) -> (r: bool)
    requires
        at + p@.len() <= t@.len(),
    ensures
        r == (t@.subrange(at as int, at as int + p@.len() as int) == p@),
{
    let tl = t.unicode_len();
    let pl = p.unicode_len();
    let ghost window = t@.subrange(at as int, at as int + p@.len() as int);
    let mut j: usize = 0;
    while j < pl
        invariant
            j <= pl,
            tl as nat == t@.len(),
            pl as nat == p@.len(),
            at + pl <= tl,
            at + p@.len() <= t@.len(),
            window == t@.subrange(at as int, at as int + p@.len() as int),
            forall|k: int| 0 <= k < j ==> t@[at + k] == p@[k],
        decreases pl - j,
    {
        let tc = t.get_char(at + j);
        let pc = p.get_char(j);
        if tc != pc {
            assert(window[j as int] != p@[j as int]);
            return false;
        }
        j += 1;
    }
    assert(window =~= p@);
    true
}

/// Whether the delimiter `p` occurs anywhere in `t`.
pub fn str_contains(t: &str, p: &str) -> (r: bool)
    ensures
        r == seq_contains(t@, p@),
{
    let tl = t.unicode_len();
    let pl = p.unicode_len();
    if pl > tl {
        assert(!seq_contains(t@, p@));
        return false;
    }
    if pl == 0 {
        assert(t@.subrange(0, 0 + p@.len() as int) =~= p@);
        return true;
    }
    let mut i: usize = 0;
    while i <= tl - pl
        invariant
            1 <= pl <= tl,
            tl as nat == t@.len(),
            pl as nat == p@.len(),
            i <= tl - pl + 1,
            forall|k: int| 0 <= k < i ==> #[trigger] t@.subrange(k, k + p@.len() as int) != p@,
        decreases tl - pl - i + 1,
    {
        if match_at(t, p, i) {
            return true;
        }
        i += 1;
    }
    false
}

/// Splits `t` on each leftmost occurrence of the delimiter `p`, returning the
/// fragments in order.
pub fn split_text(t: &str, p: &str) -> (r: Vec<String>)
    requires
        p@.len() >= 1,
    ensures
        r.deep_view() == split_spec(t@, p@),
    decreases t@.len(),
{
    let tl = t.unicode_len();
    let pl = p.unicode_len();
    if tl < pl {
        let mut r: Vec<String> = Vec::new();
        r.push(t.to_owned());
        assert(r.deep_view() =~~= split_spec(t@, p@));
        return r;
    }
    if match_at(t, p, 0) {
        let tail = t.substring_char(pl, tl);
        let mut rest = split_text(tail, p);
        rest.insert(0, String::new());
        assert(rest.deep_view() =~~= split_spec(t@, p@));
        rest
    } else {
        let tail = t.substring_char(1, tl);
        let mut rest = split_text(tail, p);
        proof {
            lemma_split_spec_len(tail@, p@);
            assert(rest.deep_view().len() >= 1);
        }
        let first = rest[0].clone();
        let mut combined = t.substring_char(0, 1).to_owned();
        combined.append(first.as_str());
        proof {
            assert(combined@ =~= seq![t@[0]] + rest.deep_view()[0]);
        }
        rest.set(0, combined);
        assert(rest.deep_view() =~~= split_spec(t@, p@));
        rest
    }
}

} // verus!
