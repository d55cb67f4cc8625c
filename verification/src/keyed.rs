//! Storage held as a list of (key, value) entries, each key stored once, and
//! the map such a list stands for.
use vstd::prelude::*;

verus! {

/// No key occurs twice among the entries.
pub open spec fn keys_distinct<K, V>(s: Seq<(K, V)>) -> bool {
    forall|i: int, j: int| 0 <= i < s.len() && 0 <= j < s.len() && i != j ==> s[i].0 != s[j].0
}

/// The map that a list of entries stands for.
pub open spec fn entry_map<K, V>(s: Seq<(K, V)>) -> Map<K, V> {
    Map::new(
        |k: K| exists|i: int| 0 <= i < s.len() && s[i].0 == k,
        |k: K| s[choose|i: int| 0 <= i < s.len() && s[i].0 == k].1,
    )
}

/// The empty list stands for the empty map.
pub proof fn lemma_entry_map_empty<K, V>()
    ensures
        keys_distinct(Seq::<(K, V)>::empty()),
        entry_map(Seq::<(K, V)>::empty()) =~= Map::<K, V>::empty(),
{
}

/// The entry at `i` is what the map holds under its key.
pub proof fn lemma_entry_map_at<K, V>(s: Seq<(K, V)>, i: int)
    requires
        keys_distinct(s),
        0 <= i < s.len(),
    ensures
        entry_map(s).dom().contains(s[i].0),
        entry_map(s)[s[i].0] == s[i].1,
{
    let k = s[i].0;
    assert(exists|j: int| 0 <= j < s.len() && s[j].0 == k);
    let j = choose|j: int| 0 <= j < s.len() && s[j].0 == k;
    assert(j == i);
}

/// A key that no entry holds is absent from the map.
pub proof fn lemma_entry_map_absent<K, V>(s: Seq<(K, V)>, k: K)
    requires
        forall|i: int| 0 <= i < s.len() ==> s[i].0 != k,
    ensures
        !entry_map(s).dom().contains(k),
{
}

/// Overwriting the value of entry `i` inserts it into the map.
pub proof fn lemma_entry_map_update<K, V>(s: Seq<(K, V)>, i: int, v: V)
    requires
        keys_distinct(s),
        0 <= i < s.len(),
    ensures
        keys_distinct(s.update(i, (s[i].0, v))),
        entry_map(s.update(i, (s[i].0, v))) =~= entry_map(s).insert(s[i].0, v),
{
    let t = s.update(i, (s[i].0, v));
    assert(keys_distinct(t));
    assert forall|k: K| #[trigger] entry_map(t).dom().contains(k) <==> entry_map(s).insert(
        s[i].0,
        v,
    ).dom().contains(k) by {
        if entry_map(s).dom().contains(k) {
            let j = choose|j: int| 0 <= j < s.len() && s[j].0 == k;
            assert(t[j].0 == k);
        }
        if k == s[i].0 {
            assert(t[i].0 == k);
        }
        if entry_map(t).dom().contains(k) {
            let j = choose|j: int| 0 <= j < t.len() && t[j].0 == k;
            assert(s[j].0 == k);
        }
    }
    assert forall|k: K| #[trigger] entry_map(t).dom().contains(k) implies entry_map(t)[k]
        == entry_map(s).insert(s[i].0, v)[k] by {
        let j = choose|j: int| 0 <= j < t.len() && t[j].0 == k;
        lemma_entry_map_at(t, j);
        if j != i {
            lemma_entry_map_at(s, j);
        }
    }
}

/// Appending an entry under a new key inserts it into the map.
pub proof fn lemma_entry_map_push<K, V>(s: Seq<(K, V)>, e: (K, V))
    requires
        keys_distinct(s),
        !entry_map(s).dom().contains(e.0),
    ensures
        keys_distinct(s.push(e)),
        entry_map(s.push(e)) =~= entry_map(s).insert(e.0, e.1),
{
    let t = s.push(e);
    assert forall|i: int| 0 <= i < s.len() implies s[i].0 != e.0 by {
        if s[i].0 == e.0 {
            assert(entry_map(s).dom().contains(e.0));
        }
    }
    assert(keys_distinct(t));
    assert forall|k: K| #[trigger] entry_map(t).dom().contains(k) <==> entry_map(s).insert(
        e.0,
        e.1,
    ).dom().contains(k) by {
        if entry_map(s).dom().contains(k) {
            let j = choose|j: int| 0 <= j < s.len() && s[j].0 == k;
            assert(t[j].0 == k);
        }
        if k == e.0 {
            assert(t[s.len() as int].0 == k);
        }
        if entry_map(t).dom().contains(k) {
            let j = choose|j: int| 0 <= j < t.len() && t[j].0 == k;
            if j < s.len() {
                assert(s[j].0 == k);
            }
        }
    }
    assert forall|k: K| #[trigger] entry_map(t).dom().contains(k) implies entry_map(t)[k]
        == entry_map(s).insert(e.0, e.1)[k] by {
        let j = choose|j: int| 0 <= j < t.len() && t[j].0 == k;
        lemma_entry_map_at(t, j);
        if j < s.len() {
            lemma_entry_map_at(s, j);
        }
    }
}

} // verus!
