//! The order of strings (`String`'s `Ord`: character by character, a prefix first)
//! and of optional strings (`None` first).
use vstd::prelude::*;

use crate::text::chars_of;

verus! {

/// `a` comes no later than `b` in the order of strings.
pub open spec fn seq_le(a: Seq<char>, b: Seq<char>) -> bool
    decreases a.len(),
{
    if a.len() == 0 {
        true
    } else if b.len() == 0 {
        false
    } else if a[0] != b[0] {
        a[0] < b[0]
    } else {
        seq_le(a.drop_first(), b.drop_first())
    }
}

/// `a` comes no later than `b` in the order of optional strings, `None` first.
pub open spec fn opt_le(a: Option<Seq<char>>, b: Option<Seq<char>>) -> bool {
    match (a, b) {
        (None, _) => true,
        (Some(_), None) => false,
        (Some(x), Some(y)) => seq_le(x, y),
    }
}

/// Any two strings are ordered one way or the other.
pub proof fn lemma_seq_le_total(a: Seq<char>, b: Seq<char>)
    ensures
        seq_le(a, b) || seq_le(b, a),
    decreases a.len(),
{
    if a.len() > 0 && b.len() > 0 && a[0] == b[0] {
        lemma_seq_le_total(a.drop_first(), b.drop_first());
    }
}

/// The order of strings is transitive.
pub proof fn lemma_seq_le_transitive(a: Seq<char>, b: Seq<char>, c: Seq<char>)
    requires
        seq_le(a, b),
        seq_le(b, c),
    ensures
        seq_le(a, c),
    decreases a.len(),
{
    if a.len() > 0 && b.len() > 0 && c.len() > 0 && a[0] == b[0] && b[0] == c[0] {
        lemma_seq_le_transitive(a.drop_first(), b.drop_first(), c.drop_first());
    }
}

/// Any two optional strings are ordered one way or the other.
pub proof fn lemma_opt_le_total(a: Option<Seq<char>>, b: Option<Seq<char>>)
    ensures
        opt_le(a, b) || opt_le(b, a),
{
    if let (Some(x), Some(y)) = (a, b) {
        lemma_seq_le_total(x, y);
    }
}

/// The order of optional strings is transitive.
pub proof fn lemma_opt_le_transitive(a: Option<Seq<char>>, b: Option<Seq<char>>, c: Option<Seq<char>>)
    requires
        opt_le(a, b),
        opt_le(b, c),
    ensures
        opt_le(a, c),
{
    if let (Some(x), Some(y), Some(z)) = (a, b, c) {
        lemma_seq_le_transitive(x, y, z);
    }
}

/// `s` is in the order `le`.
pub open spec fn sorted_by_le<A>(s: Seq<A>, le: spec_fn(A, A) -> bool) -> bool {
    forall|i: int, j: int| 0 <= i < j < s.len() ==> le(#[trigger] s[i], #[trigger] s[j])
}

/// `le` orders any two elements one way or the other, transitively.
pub open spec fn total_preorder<A>(le: spec_fn(A, A) -> bool) -> bool {
    &&& forall|a: A, b: A| #[trigger] le(a, b) || le(b, a)
    &&& forall|a: A, b: A, c: A| #[trigger] le(a, b) && #[trigger] le(b, c) ==> le(a, c)
}

/// Inserting `x` into a sorted sequence after exactly the elements that come no later
/// than it, up to the first that does not, keeps the sequence sorted.
pub proof fn lemma_insert_sorted<A>(s: Seq<A>, x: A, p: int, le: spec_fn(A, A) -> bool)
    requires
        total_preorder(le),
        sorted_by_le(s, le),
        0 <= p <= s.len(),
        forall|k: int| 0 <= k < p ==> le(#[trigger] s[k], x),
        p < s.len() ==> !le(s[p], x),
    ensures
        sorted_by_le(s.insert(p, x), le),
{
    let t = s.insert(p, x);
    assert forall|j: int| p <= j < s.len() implies le(x, #[trigger] s[j]) by {
        if le(s[j], x) {
            if j > p {
                assert(le(s[p], s[j]));
            }
            assert(le(s[p], x));
        }
        assert(le(s[j], x) || le(x, s[j]));
    }
    assert forall|i: int, j: int| 0 <= i < j < t.len() implies le(#[trigger] t[i], #[trigger] t[j]) by {
        if i < p {
            if j < p {
                assert(t[i] == s[i] && t[j] == s[j]);
            } else if j == p {
                assert(t[i] == s[i] && t[j] == x);
            } else {
                assert(t[i] == s[i] && t[j] == s[j - 1]);
            }
        } else if i == p {
            assert(t[i] == x && t[j] == s[j - 1]);
        } else {
            assert(t[i] == s[i - 1] && t[j] == s[j - 1]);
        }
    }
}

/// Where `x` goes in `s`: after the leading elements that come no later than it.
pub open spec fn insert_pos<A>(s: Seq<A>, x: A, le: spec_fn(A, A) -> bool) -> int
    decreases s.len(),
{
    if s.len() == 0 {
        0
    } else if le(s[0], x) {
        1 + insert_pos(s.drop_first(), x, le)
    } else {
        0
    }
}

/// `s` sorted by `le`, stably: its elements are inserted one after the other, each
/// after the elements that come no later than it, so that elements neither of which
/// comes before the other keep their order in `s`.
pub open spec fn stable_sort<A>(s: Seq<A>, le: spec_fn(A, A) -> bool) -> Seq<A>
    decreases s.len(),
{
    if s.len() == 0 {
        s
    } else {
        let t = stable_sort(s.drop_last(), le);
        t.insert(insert_pos(t, s.last(), le), s.last())
    }
}

/// The position after the leading elements that come no later than `x`, up to the
/// first that does not, is [`insert_pos`].
pub proof fn lemma_insert_pos<A>(s: Seq<A>, x: A, p: int, le: spec_fn(A, A) -> bool)
    requires
        0 <= p <= s.len(),
        forall|k: int| 0 <= k < p ==> le(#[trigger] s[k], x),
        p < s.len() ==> !le(s[p], x),
    ensures
        insert_pos(s, x, le) == p,
    decreases p,
{
    if p > 0 {
        assert(le(s[0], x));
        let t = s.drop_first();
        assert forall|k: int| 0 <= k < p - 1 implies le(#[trigger] t[k], x) by {
            assert(t[k] == s[k + 1]);
        }
        if p < s.len() {
            assert(t[p - 1] == s[p]);
        }
        lemma_insert_pos(t, x, p - 1, le);
    }
}

/// [`insert_pos`] lies within `s`, after elements that come no later than `x`, and
/// before one that does not.
pub proof fn lemma_insert_pos_bounds<A>(s: Seq<A>, x: A, le: spec_fn(A, A) -> bool)
    ensures
        0 <= insert_pos(s, x, le) <= s.len(),
        forall|k: int| 0 <= k < insert_pos(s, x, le) ==> le(#[trigger] s[k], x),
        insert_pos(s, x, le) < s.len() ==> !le(s[insert_pos(s, x, le)], x),
    decreases s.len(),
{
    if s.len() > 0 && le(s[0], x) {
        let t = s.drop_first();
        lemma_insert_pos_bounds(t, x, le);
        let p = insert_pos(s, x, le);
        assert forall|k: int| 0 <= k < p implies le(#[trigger] s[k], x) by {
            if k > 0 {
                assert(s[k] == t[k - 1]);
            }
        }
        if p < s.len() {
            assert(s[p] == t[p - 1]);
        }
    }
}

/// A stable sort by a total preorder is sorted by it.
pub proof fn lemma_stable_sort_sorted<A>(s: Seq<A>, le: spec_fn(A, A) -> bool)
    requires
        total_preorder(le),
    ensures
        sorted_by_le(stable_sort(s, le), le),
        stable_sort(s, le).len() == s.len(),
    decreases s.len(),
{
    if s.len() > 0 {
        let t = stable_sort(s.drop_last(), le);
        lemma_stable_sort_sorted(s.drop_last(), le);
        lemma_insert_pos_bounds(t, s.last(), le);
        lemma_insert_sorted(t, s.last(), insert_pos(t, s.last(), le), le);
    }
}

/// The step of [`stable_sort`] for one more element.
pub proof fn lemma_stable_sort_push<A>(s: Seq<A>, x: A, le: spec_fn(A, A) -> bool)
    ensures
        stable_sort(s.push(x), le) == stable_sort(s, le).insert(
            insert_pos(stable_sort(s, le), x, le),
            x,
        ),
{
    assert(s.push(x).drop_last() =~= s);
}

/// Whether `a` comes no later than `b` in the order of strings.
pub fn str_le(a: &str, b: &str) -> (r: bool)
    ensures
        r == seq_le(a@, b@),
{
    let x = chars_of(a);
    let y = chars_of(b);
    let mut i: usize = 0;
    assert(x@.skip(0) =~= x@);
    assert(y@.skip(0) =~= y@);
    while i < x.len() && i < y.len() && x[i] == y[i]
        invariant
            i <= x@.len(),
            i <= y@.len(),
            seq_le(a@, b@) == seq_le(x@.skip(i as int), y@.skip(i as int)),
            x@ == a@,
            y@ == b@,
        decreases x@.len() - i,
    {
        let ghost xs = x@.skip(i as int);
        let ghost ys = y@.skip(i as int);
        assert(xs.drop_first() =~= x@.skip(i + 1));
        assert(ys.drop_first() =~= y@.skip(i + 1));
        i = i + 1;
    }
    proof {
        let xs = x@.skip(i as int);
        let ys = y@.skip(i as int);
        if i < x@.len() && i < y@.len() {
            assert(xs[0] == x@[i as int] && ys[0] == y@[i as int]);
        }
    }
    if i == x.len() {
        true
    } else if i == y.len() {
        false
    } else {
        x[i] < y[i]
    }
}

/// The view of an optional string.
pub open spec fn opt_view(o: Option<String>) -> Option<Seq<char>> {
    match o {
        Some(s) => Some(s@),
        None => None,
    }
}

/// Whether `a` comes no later than `b` in the order of optional strings.
pub fn opt_str_le(a: &Option<String>, b: &Option<String>) -> (r: bool)
    ensures
        r == opt_le(opt_view(*a), opt_view(*b)),
{
    match (a, b) {
        (None, _) => true,
        (Some(_), None) => false,
        (Some(x), Some(y)) => str_le(x.as_str(), y.as_str()),
    }
}

} // verus!
