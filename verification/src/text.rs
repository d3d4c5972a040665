//! Text as sequences of characters: token replacement and the conversions
//! between `str`, `String` and `Vec<char>`.

use vstd::prelude::*;
use vstd::std_specs::iter::IteratorSpec;

verus! {

/// `String::push` appends the given character to the end of the string.
pub assume_specification[ String::push ](s: &mut String, c: char)
    ensures
        final(s)@ == old(s)@.push(c),
;

/// The characters of `s`, in order.
pub fn chars_of(s: &str) -> (v: Vec<char>)
    ensures
        v@ == s@,
{
    let mut v: Vec<char> = Vec::new();
    let it = s.chars();
    for c in iter: it
        invariant
            iter.seq() == s@,
            v@ == s@.subrange(0, iter.index()),
    {
        v.push(c);
    }
    assert(s@.subrange(0, s@.len() as int) == s@);
    v
}

/// The string whose characters are those of `v`, in order.
pub fn string_of(v: &Vec<char>) -> (s: String)
    ensures
        s@ == v@,
{
    let mut s = String::new();
    let mut i: usize = 0;
    while i < v.len()
        invariant
            i <= v.len(),
            s@ == v@.subrange(0, i as int),
        decreases v.len() - i,
    {
        s.push(v[i]);
        i = i + 1;
    }
    assert(v@.subrange(0, v.len() as int) == v@);
    s
}

/// Whether `pat` stands in `text` at position `at`.
pub open spec fn occurs_at(text: Seq<char>, pat: Seq<char>, at: int) -> bool {
    &&& 0 <= at
    &&& at + pat.len() <= text.len()
    &&& text.subrange(at, at + pat.len()) == pat
}

/// Whether `pat` stands anywhere in `text`.
pub open spec fn occurs_in(text: Seq<char>, pat: Seq<char>) -> bool {
    exists|at: int| occurs_at(text, pat, at)
}

/// `text` with every occurrence of `pat` replaced by `to`. Occurrences are
/// taken from the left and do not overlap; what was put in is not searched
/// again. An empty `pat` occurs nowhere.
pub open spec fn replaced(text: Seq<char>, pat: Seq<char>, to: Seq<char>) -> Seq<char>
    decreases text.len(),
{
    if pat.len() == 0 || text.len() < pat.len() {
        text
    } else if occurs_at(text, pat, 0) {
        to + replaced(text.skip(pat.len() as int), pat, to)
    } else {
        seq![text[0]] + replaced(text.skip(1), pat, to)
    }
}

/// A text in which the pattern does not occur is left as it is.
pub proof fn lemma_replaced_without_occurrence(text: Seq<char>, pat: Seq<char>, to: Seq<char>)
    requires
        !occurs_in(text, pat),
    ensures
        replaced(text, pat, to) == text,
    decreases text.len(),
{
    if pat.len() == 0 || text.len() < pat.len() {
    } else {
        assert(!occurs_at(text, pat, 0));
        let rest = text.skip(1);
        assert forall|at: int| !occurs_at(rest, pat, at) by {
            if occurs_at(rest, pat, at) {
                assert(text.subrange(at + 1, at + 1 + pat.len()) =~= rest.subrange(
                    at,
                    at + pat.len(),
                ));
                assert(occurs_at(text, pat, at + 1));
            }
        }
        lemma_replaced_without_occurrence(rest, pat, to);
        assert(seq![text[0]] + rest =~= text);
    }
}

/// What starts a replaced text starts the text itself, as long as it holds
/// nothing that a replacement begins with.
proof fn lemma_prefix_of_replaced(
    text: Seq<char>,
    pat: Seq<char>,
    to: Seq<char>,
    head: Seq<char>,
)
    requires
        pat.len() > 0,
        to.len() > 0,
        !head.contains(to[0]),
        head.is_prefix_of(replaced(text, pat, to)),
    ensures
        head.is_prefix_of(text),
    decreases text.len(),
{
    if head.len() == 0 || text.len() < pat.len() {
    } else if occurs_at(text, pat, 0) {
        assert(head[0] == to[0]);
    } else {
        let rest = text.skip(1);
        let tail = head.skip(1);
        assert forall|j: int| 0 <= j < tail.len() implies tail[j] != to[0] by {
            assert(tail[j] == head[j + 1]);
        }
        assert(tail.is_prefix_of(replaced(rest, pat, to))) by {
            assert(tail =~= replaced(rest, pat, to).subrange(0, tail.len() as int));
        }
        lemma_prefix_of_replaced(rest, pat, to, tail);
        assert(head =~= text.subrange(0, head.len() as int)) by {
            assert(head[0] == text[0]);
            assert forall|j: int| 1 <= j < head.len() implies head[j] == text[j] by {
                assert(head[j] == tail[j - 1]);
                assert(tail[j - 1] == rest.subrange(0, tail.len() as int)[j - 1]);
            }
        }
    }
}

/// After replacing, no occurrence of the pattern is left, provided that
/// what is put in cannot become part of one: it is not empty, holds nothing
/// that the pattern begins with, and begins with nothing that the pattern
/// goes on with.
pub proof fn lemma_replaced_leaves_none(text: Seq<char>, pat: Seq<char>, to: Seq<char>)
    requires
        pat.len() > 0,
        to.len() > 0,
        !to.contains(pat[0]),
        !pat.skip(1).contains(to[0]),
    ensures
        !occurs_in(replaced(text, pat, to), pat),
    decreases text.len(),
{
    let out = replaced(text, pat, to);
    let m = pat.len() as int;
    assert forall|at: int| !occurs_at(out, pat, at) by {
        if occurs_at(out, pat, at) {
            assert(out.subrange(at, at + m)[0] == pat[0]);
            if text.len() < pat.len() {
            } else if occurs_at(text, pat, 0) {
                let rest = replaced(text.skip(m), pat, to);
                lemma_replaced_leaves_none(text.skip(m), pat, to);
                if at < to.len() {
                    assert(to[at] == pat[0]);
                } else {
                    assert(rest.subrange(at - to.len(), at - to.len() + m) =~= out.subrange(
                        at,
                        at + m,
                    ));
                    assert(occurs_at(rest, pat, at - to.len()));
                }
            } else {
                let rest = replaced(text.skip(1), pat, to);
                lemma_replaced_leaves_none(text.skip(1), pat, to);
                if at >= 1 {
                    assert(rest.subrange(at - 1, at - 1 + m) =~= out.subrange(at, at + m));
                    assert(occurs_at(rest, pat, at - 1));
                } else {
                    let tail = pat.skip(1);
                    assert(tail.is_prefix_of(rest)) by {
                        assert forall|j: int| 0 <= j < tail.len() implies tail[j] == rest[j] by {
                            assert(out.subrange(0, m)[j + 1] == pat[j + 1]);
                        }
                        assert(tail =~= rest.subrange(0, tail.len() as int));
                    }
                    lemma_prefix_of_replaced(text.skip(1), pat, to, tail);
                    assert(text.subrange(0, m) =~= pat) by {
                        assert(text[0] == pat[0]);
                        assert forall|j: int| 1 <= j < m implies text[j] == pat[j] by {
                            assert(tail[j - 1] == text.skip(1).subrange(0, tail.len() as int)[j
                                - 1]);
                        }
                    }
                    assert(occurs_at(text, pat, 0));
                }
            }
        }
    }
}

/// Whether `pat` stands in `text` at position `at`.
pub fn matches_at(text: &Vec<char>, pat: &Vec<char>, at: usize) -> (b: bool)
    ensures
        b == occurs_at(text@, pat@, at as int),
{
    if pat.len() > text.len() || at > text.len() - pat.len() {
        return false;
    }
    let mut k: usize = 0;
    while k < pat.len()
        invariant
            k <= pat.len(),
            at + pat.len() <= text.len(),
            forall|j: int| 0 <= j < k ==> text@[at + j] == pat@[j],
        decreases pat.len() - k,
    {
        if text[at + k] != pat[k] {
            assert(text@.subrange(at as int, at + pat.len())[k as int] == text@[at + k]);
            return false;
        }
        k = k + 1;
    }
    assert(text@.subrange(at as int, at + pat.len()) =~= pat@);
    true
}

/// Appends the items of `more` to `out`.
pub fn extend_chars(out: &mut Vec<char>, more: &Vec<char>)
    ensures
        final(out)@ == old(out)@ + more@,
{
    let mut k: usize = 0;
    while k < more.len()
        invariant
            k <= more.len(),
            out@ == old(out)@ + more@.subrange(0, k as int),
        decreases more.len() - k,
    {
        out.push(more[k]);
        k = k + 1;
    }
    assert(more@.subrange(0, more.len() as int) == more@);
}

/// Replaces every occurrence of `pat` in `text` by `to`.
pub fn replace_all(text: &Vec<char>, pat: &Vec<char>, to: &Vec<char>) -> (out: Vec<char>)
    ensures
        out@ == replaced(text@, pat@, to@),
{
    let mut out: Vec<char> = Vec::new();
    let mut i: usize = 0;
    assert(text@.skip(0) =~= text@);
    assert(out@ + replaced(text@, pat@, to@) =~= replaced(text@, pat@, to@));
    while i < text.len()
        invariant
            i <= text.len(),
            out@ + replaced(text@.skip(i as int), pat@, to@) == replaced(text@, pat@, to@),
        decreases text.len() - i,
    {
        let ghost rest = text@.skip(i as int);
        if pat.len() > 0 && matches_at(text, pat, i) {
            assert(occurs_at(rest, pat@, 0)) by {
                assert(rest.subrange(0, pat.len() as int) =~= text@.subrange(
                    i as int,
                    i + pat.len(),
                ));
            }
            assert(rest.skip(pat.len() as int) =~= text@.skip(i + pat.len()));
            extend_chars(&mut out, to);
            i = i + pat.len();
        } else {
            assert(replaced(rest, pat@, to@) == seq![rest[0]] + replaced(rest.skip(1), pat@, to@)) by {
                if pat.len() == 0 || rest.len() < pat.len() {
                    assert(rest =~= seq![rest[0]] + rest.skip(1));
                } else {
                    assert(rest.subrange(0, pat.len() as int) =~= text@.subrange(
                        i as int,
                        i + pat.len(),
                    ));
                }
            }
            assert(rest.skip(1) =~= text@.skip(i + 1));
            out.push(text[i]);
            i = i + 1;
        }
    }
    assert(text@.skip(text.len() as int) =~= Seq::<char>::empty());
    out
}

/// Replaces every occurrence of `pat` in `text` by `to`.
pub fn replace_text(text: &str, pat: &str, to: &str) -> (out: String)
    ensures
        out@ == replaced(text@, pat@, to@),
{
    let t = chars_of(text);
    let p = chars_of(pat);
    let r = chars_of(to);
    let o = replace_all(&t, &p, &r);
    string_of(&o)
}

} // verus!
