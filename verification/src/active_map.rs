//! A small map from mod ids to values, kept as a vector of entries with distinct keys,
//! and its model as a `Map`.
use vstd::prelude::*;

use crate::text::str_eq;

verus! {

/// No two entries share a key.
pub open spec fn keys_distinct<V>(es: Seq<(String, V)>) -> bool {
    forall|i: int, j: int|
        0 <= i < es.len() && 0 <= j < es.len() && i != j ==> #[trigger] es[i].0@ != #[trigger] es[j].0@
}

/// Some entry has key `k`.
pub open spec fn has_key<V>(es: Seq<(String, V)>, k: Seq<char>) -> bool {
    exists|i: int| 0 <= i < es.len() && #[trigger] es[i].0@ == k
}

/// The map that the entries stand for.
pub open spec fn entries_map<V>(es: Seq<(String, V)>) -> Map<Seq<char>, V> {
    Map::new(
        |k: Seq<char>| has_key(es, k),
        |k: Seq<char>| es[choose|i: int| 0 <= i < es.len() && #[trigger] es[i].0@ == k].1,
    )
}

/// With distinct keys, the value of an entry's key is that entry's value.
pub proof fn lemma_entry_value<V>(es: Seq<(String, V)>, i: int)
    requires
        keys_distinct(es),
        0 <= i < es.len(),
    ensures
        entries_map(es).dom().contains(es[i].0@),
        entries_map(es)[es[i].0@] == es[i].1,
{
    let k = es[i].0@;
    assert(has_key(es, k));
    let j = choose|j: int| 0 <= j < es.len() && #[trigger] es[j].0@ == k;
    assert(j == i);
}

/// Pushing an entry with a fresh key inserts it.
pub proof fn lemma_push<V>(es: Seq<(String, V)>, e: (String, V))
    requires
        keys_distinct(es),
        !has_key(es, e.0@),
    ensures
        keys_distinct(es.push(e)),
        entries_map(es.push(e)) =~= entries_map(es).insert(e.0@, e.1),
{
    let es2 = es.push(e);
    assert forall|i: int, j: int|
        0 <= i < es2.len() && 0 <= j < es2.len() && i != j implies #[trigger] es2[i].0@
        != #[trigger] es2[j].0@ by {
        if i < es.len() && j < es.len() {
            assert(es2[i] == es[i] && es2[j] == es[j]);
        } else if i < es.len() {
            assert(es2[i] == es[i]);
        } else {
            assert(es2[j] == es[j]);
        }
    }
    let m1 = entries_map(es2);
    let m2 = entries_map(es).insert(e.0@, e.1);
    assert forall|k: Seq<char>| m1.dom().contains(k) <==> m2.dom().contains(k) by {
        if has_key(es2, k) {
            let i = choose|i: int| 0 <= i < es2.len() && #[trigger] es2[i].0@ == k;
            if i < es.len() {
                assert(es2[i] == es[i]);
                assert(has_key(es, k));
            }
        }
        if has_key(es, k) {
            let i = choose|i: int| 0 <= i < es.len() && #[trigger] es[i].0@ == k;
            assert(es2[i] == es[i]);
        }
        if k == e.0@ {
            assert(es2[es.len() as int] == e);
        }
    }
    assert forall|k: Seq<char>| m1.dom().contains(k) implies m1[k] == m2[k] by {
        let i = choose|i: int| 0 <= i < es2.len() && #[trigger] es2[i].0@ == k;
        lemma_entry_value(es2, i);
        if i < es.len() {
            assert(es2[i] == es[i]);
            lemma_entry_value(es, i);
        }
    }
}

/// Replacing the value of an existing entry updates the map at its key.
pub proof fn lemma_update<V>(es: Seq<(String, V)>, i: int, e: (String, V))
    requires
        keys_distinct(es),
        0 <= i < es.len(),
        es[i].0@ == e.0@,
    ensures
        keys_distinct(es.update(i, e)),
        entries_map(es.update(i, e)) =~= entries_map(es).insert(e.0@, e.1),
{
    let es2 = es.update(i, e);
    assert forall|a: int, b: int|
        0 <= a < es2.len() && 0 <= b < es2.len() && a != b implies #[trigger] es2[a].0@
        != #[trigger] es2[b].0@ by {
        assert(es2[a].0@ == es[a].0@ && es2[b].0@ == es[b].0@);
    }
    let m1 = entries_map(es2);
    let m2 = entries_map(es).insert(e.0@, e.1);
    assert forall|k: Seq<char>| m1.dom().contains(k) <==> m2.dom().contains(k) by {
        if has_key(es2, k) {
            let a = choose|a: int| 0 <= a < es2.len() && #[trigger] es2[a].0@ == k;
            assert(es[a].0@ == k);
        }
        if has_key(es, k) {
            let a = choose|a: int| 0 <= a < es.len() && #[trigger] es[a].0@ == k;
            assert(es2[a].0@ == k);
        }
    }
    assert forall|k: Seq<char>| m1.dom().contains(k) implies m1[k] == m2[k] by {
        let a = choose|a: int| 0 <= a < es2.len() && #[trigger] es2[a].0@ == k;
        lemma_entry_value(es2, a);
        if a != i {
            lemma_entry_value(es, a);
        }
    }
}

/// Removing an entry removes its key.
pub proof fn lemma_remove<V>(es: Seq<(String, V)>, i: int)
    requires
        keys_distinct(es),
        0 <= i < es.len(),
    ensures
        keys_distinct(es.remove(i)),
        entries_map(es.remove(i)) =~= entries_map(es).remove(es[i].0@),
{
    let es2 = es.remove(i);
    assert forall|a: int, b: int|
        0 <= a < es2.len() && 0 <= b < es2.len() && a != b implies #[trigger] es2[a].0@
        != #[trigger] es2[b].0@ by {
        let a1 = if a < i { a } else { a + 1 };
        let b1 = if b < i { b } else { b + 1 };
        assert(es2[a] == es[a1] && es2[b] == es[b1]);
    }
    let m1 = entries_map(es2);
    let m2 = entries_map(es).remove(es[i].0@);
    assert forall|k: Seq<char>| m1.dom().contains(k) <==> m2.dom().contains(k) by {
        if has_key(es2, k) {
            let a = choose|a: int| 0 <= a < es2.len() && #[trigger] es2[a].0@ == k;
            let a1 = if a < i { a } else { a + 1 };
            assert(es2[a] == es[a1]);
            assert(has_key(es, k));
        }
        if has_key(es, k) && k != es[i].0@ {
            let a = choose|a: int| 0 <= a < es.len() && #[trigger] es[a].0@ == k;
            let a2 = if a < i { a } else { a - 1 };
            assert(es2[a2] == es[a]);
        }
    }
    assert forall|k: Seq<char>| m1.dom().contains(k) implies m1[k] == m2[k] by {
        let a = choose|a: int| 0 <= a < es2.len() && #[trigger] es2[a].0@ == k;
        let a1 = if a < i { a } else { a + 1 };
        assert(es2[a] == es[a1]);
        lemma_entry_value(es2, a);
        lemma_entry_value(es, a1);
    }
}

/// The position of the entry with key `k`, if any.
pub fn find_key<V>(es: &Vec<(String, V)>, k: &str) -> (r: Option<usize>)
    ensures
        match r {
            Some(i) => i < es@.len() && es@[i as int].0@ == k@,
            None => !has_key(es@, k@),
        },
{
    let mut i: usize = 0;
    while i < es.len()
        invariant
            i <= es@.len(),
            forall|j: int| 0 <= j < i ==> #[trigger] es@[j].0@ != k@,
        decreases es@.len() - i,
    {
        if str_eq(es[i].0.as_str(), k) {
            return Some(i);
        }
        i = i + 1;
    }
    None
}

} // verus!
