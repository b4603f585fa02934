//! Sequences read as tables: each element has a key, and at most one
//! element is kept for a key.

use vstd::prelude::*;

verus! {

/// Whether some element of `s` has the key `k`.
pub open spec fn has_key<K, V>(s: Seq<V>, key: spec_fn(V) -> K, k: K) -> bool {
    exists|i: int| 0 <= i < s.len() && #[trigger] key(s[i]) == k
}

/// Whether no two elements of `s` share a key.
pub open spec fn distinct_keys<K, V>(s: Seq<V>, key: spec_fn(V) -> K) -> bool {
    forall|i: int, j: int| 0 <= i < j < s.len() ==> #[trigger] key(s[i]) != #[trigger] key(s[j])
}

/// The place of an element with key `k` in `s`.
pub open spec fn index_of<K, V>(s: Seq<V>, key: spec_fn(V) -> K, k: K) -> int {
    choose|i: int| 0 <= i < s.len() && #[trigger] key(s[i]) == k
}

/// The table that `s` stands for: from each key that occurs to an
/// element with that key. Where the keys are distinct there is only one.
pub open spec fn table<K, V>(s: Seq<V>, key: spec_fn(V) -> K) -> Map<K, V> {
    Map::new(|k: K| has_key(s, key, k), |k: K| s[index_of(s, key, k)])
}

/// `s` with only the first element of each key, in the order of `s`.
pub open spec fn first_of_each<K, V>(s: Seq<V>, key: spec_fn(V) -> K) -> Seq<V>
    decreases s.len(),
{
    if s.len() == 0 {
        Seq::empty()
    } else {
        let head = first_of_each(s.drop_last(), key);
        if has_key(head, key, key(s.last())) {
            head
        } else {
            head.push(s.last())
        }
    }
}

/// With distinct keys, the table holds each element under its own key.
pub proof fn lemma_table_at<K, V>(s: Seq<V>, key: spec_fn(V) -> K, i: int)
    requires
        distinct_keys(s, key),
        0 <= i < s.len(),
    ensures
        table(s, key).contains_key(key(s[i])),
        table(s, key)[key(s[i])] == s[i],
{
    let k = key(s[i]);
    assert(has_key(s, key, k));
    let j = index_of(s, key, k);
    assert(0 <= j < s.len() && key(s[j]) == k);
    if j != i {
        if j < i {
            assert(key(s[j]) != key(s[i]));
        } else {
            assert(key(s[i]) != key(s[j]));
        }
    }
}

/// Appending an element with a new key inserts it into the table.
pub proof fn lemma_table_push<K, V>(s: Seq<V>, key: spec_fn(V) -> K, v: V)
    requires
        distinct_keys(s, key),
        !has_key(s, key, key(v)),
    ensures
        distinct_keys(s.push(v), key),
        table(s.push(v), key) == table(s, key).insert(key(v), v),
{
    let t = s.push(v);
    assert forall|i: int, j: int| 0 <= i < j < t.len() implies #[trigger] key(t[i]) != #[trigger] key(
        t[j],
    ) by {
        if j < s.len() {
            assert(key(s[i]) != key(s[j]));
        } else {
            assert(t[i] == s[i]);
            if key(s[i]) == key(v) {
                assert(has_key(s, key, key(v)));
            }
        }
    }
    assert forall|k: K| #[trigger] table(t, key).contains_key(k) == table(s, key).insert(
        key(v),
        v,
    ).contains_key(k) by {
        if has_key(t, key, k) {
            let i = index_of(t, key, k);
            assert(0 <= i < t.len() && key(t[i]) == k);
            if i < s.len() {
                assert(key(s[i]) == k);
            }
        }
        if has_key(s, key, k) {
            let i = index_of(s, key, k);
            assert(key(t[i]) == k);
        }
        if k == key(v) {
            assert(key(t[s.len() as int]) == k);
        }
    }
    assert forall|k: K| #[trigger] table(t, key).contains_key(k) implies table(t, key)[k] == table(
        s,
        key,
    ).insert(key(v), v)[k] by {
        let i = index_of(t, key, k);
        assert(0 <= i < t.len() && key(t[i]) == k);
        lemma_table_at(t, key, i);
        if i < s.len() {
            assert(t[i] == s[i]);
            lemma_table_at(s, key, i);
        }
    }
    assert(table(t, key) =~= table(s, key).insert(key(v), v));
}

/// What `first_of_each` keeps has distinct keys, and has a key exactly
/// where the whole sequence has it.
pub proof fn lemma_first_of_each<K, V>(s: Seq<V>, key: spec_fn(V) -> K)
    ensures
        distinct_keys(first_of_each(s, key), key),
        forall|k: K| has_key(first_of_each(s, key), key, k) == has_key(s, key, k),
        first_of_each(s, key).len() <= s.len(),
        s.len() > 0 ==> first_of_each(s, key).len() > 0,
    decreases s.len(),
{
    if s.len() > 0 {
        let init = s.drop_last();
        let head = first_of_each(init, key);
        let last = s.last();
        lemma_first_of_each(init, key);
        let out = first_of_each(s, key);
        if !has_key(head, key, key(last)) {
            lemma_table_push(head, key, last);
            assert(key(out[head.len() as int]) == key(last));
        } else if init.len() == 0 {
            assert(head.len() == 0);
            let w = index_of(head, key, key(last));
            assert(0 <= w < head.len());
        }
        assert forall|k: K| has_key(out, key, k) == has_key(s, key, k) by {
            if has_key(out, key, k) {
                let i = index_of(out, key, k);
                assert(0 <= i < out.len() && key(out[i]) == k);
                if i < head.len() {
                    assert(out[i] == head[i]);
                    assert(has_key(head, key, k));
                    assert(has_key(init, key, k));
                    let j = index_of(init, key, k);
                    assert(key(s[j]) == k);
                } else {
                    assert(out[i] == last);
                    assert(key(s[s.len() - 1]) == k);
                }
            }
            if has_key(s, key, k) {
                let j = index_of(s, key, k);
                assert(0 <= j < s.len() && key(s[j]) == k);
                if j < init.len() {
                    assert(key(init[j]) == k);
                    assert(has_key(init, key, k));
                    assert(has_key(head, key, k));
                    let i = index_of(head, key, k);
                    assert(key(out[i]) == k);
                } else {
                    assert(k == key(last));
                    if has_key(head, key, k) {
                        let i = index_of(head, key, k);
                        assert(key(out[i]) == k);
                    } else {
                        assert(key(out[head.len() as int]) == k);
                    }
                }
            }
        }
    } else {
        assert forall|k: K| has_key(first_of_each(s, key), key, k) == has_key(s, key, k) by {
            if has_key(s, key, k) {
                let j = index_of(s, key, k);
                assert(0 <= j < s.len());
            }
            if has_key(first_of_each(s, key), key, k) {
                let j = index_of(first_of_each(s, key), key, k);
                assert(0 <= j < 0);
            }
        }
    }
}

} // verus!
