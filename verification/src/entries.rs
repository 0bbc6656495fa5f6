//! Association lists keyed by text: the model of an object's properties and of
//! a scope's bindings. A key is looked up at its first entry.

use vstd::prelude::*;

verus! {

/// `i` is the first position of `entries` whose key is `key`.
pub open spec fn is_first_index<V>(entries: Seq<(Seq<char>, V)>, key: Seq<char>, i: int) -> bool {
    &&& 0 <= i < entries.len()
    &&& entries[i].0 == key
    &&& forall|j: int| 0 <= j < i ==> (#[trigger] entries[j]).0 != key
}

/// Some entry of `entries` has the key `key`.
pub open spec fn has_key<V>(entries: Seq<(Seq<char>, V)>, key: Seq<char>) -> bool {
    exists|i: int| 0 <= i < entries.len() && (#[trigger] entries[i]).0 == key
}

/// The first position of `key`, where it has one.
pub open spec fn first_index<V>(entries: Seq<(Seq<char>, V)>, key: Seq<char>) -> int {
    choose|i: int| is_first_index(entries, key, i)
}

/// The value under `key`, where it has one.
pub open spec fn value_of<V>(entries: Seq<(Seq<char>, V)>, key: Seq<char>) -> V {
    entries[first_index(entries, key)].1
}

/// The value under `key`, or nothing.
pub open spec fn lookup<V>(entries: Seq<(Seq<char>, V)>, key: Seq<char>) -> Option<V> {
    if has_key(entries, key) {
        Some(value_of(entries, key))
    } else {
        None
    }
}

/// `entries` with `key` bound to `value`: replaced where present, appended
/// where not.
pub open spec fn inserted<V>(entries: Seq<(Seq<char>, V)>, key: Seq<char>, value: V) -> Seq<
    (Seq<char>, V),
> {
    if has_key(entries, key) {
        entries.update(first_index(entries, key), (key, value))
    } else {
        entries.push((key, value))
    }
}

/// No key occurs twice.
pub open spec fn distinct_keys<V>(entries: Seq<(Seq<char>, V)>) -> bool {
    forall|i: int, j: int|
        0 <= i < j < entries.len() ==> (#[trigger] entries[i]).0 != (#[trigger] entries[j]).0
}

/// A first index is the only one.
pub proof fn lemma_first_index_unique<V>(entries: Seq<(Seq<char>, V)>, key: Seq<char>, i: int)
    requires
        is_first_index(entries, key, i),
    ensures
        has_key(entries, key),
        first_index(entries, key) == i,
        value_of(entries, key) == entries[i].1,
        lookup(entries, key) == Some(entries[i].1),
{
    let c = first_index(entries, key);
    assert(is_first_index(entries, key, c));
    if c < i {
        assert(entries[c].0 != key);
    }
    if i < c {
        assert(entries[i].0 != key);
    }
}

/// A key that no entry has is not found.
pub proof fn lemma_absent<V>(entries: Seq<(Seq<char>, V)>, key: Seq<char>)
    requires
        forall|j: int| 0 <= j < entries.len() ==> (#[trigger] entries[j]).0 != key,
    ensures
        !has_key(entries, key),
        lookup(entries, key) == None::<V>,
{
}

/// A present key has a first index.
pub proof fn lemma_has_first_index<V>(entries: Seq<(Seq<char>, V)>, key: Seq<char>)
    requires
        has_key(entries, key),
    ensures
        is_first_index(entries, key, first_index(entries, key)),
    decreases entries.len(),
{
    let w = choose|i: int| 0 <= i < entries.len() && (#[trigger] entries[i]).0 == key;
    lemma_first_below(entries, key, w);
}

proof fn lemma_first_below<V>(entries: Seq<(Seq<char>, V)>, key: Seq<char>, w: int)
    requires
        0 <= w < entries.len(),
        entries[w].0 == key,
    ensures
        exists|i: int| is_first_index(entries, key, i),
    decreases w,
{
    if forall|j: int| 0 <= j < w ==> (#[trigger] entries[j]).0 != key {
        assert(is_first_index(entries, key, w));
    } else {
        let j = choose|j: int| 0 <= j < w && (#[trigger] entries[j]).0 == key;
        lemma_first_below(entries, key, j);
    }
}

/// What a lookup finds after `inserted`.
pub proof fn lemma_lookup_inserted<V>(
    entries: Seq<(Seq<char>, V)>,
    key: Seq<char>,
    value: V,
    other: Seq<char>,
)
    ensures
        lookup(inserted(entries, key, value), other) == if other == key {
            Some(value)
        } else {
            lookup(entries, other)
        },
        inserted(entries, key, value).len() >= entries.len(),
{
    let after = inserted(entries, key, value);
    if has_key(entries, key) {
        lemma_has_first_index(entries, key);
        let p = first_index(entries, key);
        if other == key {
            assert(is_first_index(after, key, p)) by {
                assert forall|j: int| 0 <= j < p implies (#[trigger] after[j]).0 != key by {
                    assert(entries[j].0 != key);
                }
            }
            lemma_first_index_unique(after, key, p);
        } else {
            lemma_lookup_same_keys(entries, after, other, p);
        }
    } else {
        if other == key {
            assert(is_first_index(after, key, entries.len() as int)) by {
                assert forall|j: int| 0 <= j < entries.len() implies (#[trigger] after[j]).0
                    != key by {
                    assert(after[j] == entries[j]);
                }
            }
            lemma_first_index_unique(after, key, entries.len() as int);
        } else {
            if has_key(entries, other) {
                lemma_has_first_index(entries, other);
                let q = first_index(entries, other);
                assert(is_first_index(after, other, q)) by {
                    assert(after[q] == entries[q]);
                    assert forall|j: int| 0 <= j < q implies (#[trigger] after[j]).0 != other by {
                        assert(after[j] == entries[j]);
                    }
                }
                lemma_first_index_unique(after, other, q);
            } else {
                assert forall|j: int| 0 <= j < after.len() implies (#[trigger] after[j]).0
                    != other by {
                    if j < entries.len() {
                        assert(after[j] == entries[j]);
                    }
                }
                lemma_absent(after, other);
            }
        }
    }
}

/// Replacing the value at position `p`, under the same key, changes no lookup
/// of another key.
pub proof fn lemma_lookup_same_keys<V>(
    entries: Seq<(Seq<char>, V)>,
    after: Seq<(Seq<char>, V)>,
    other: Seq<char>,
    p: int,
)
    requires
        0 <= p < entries.len(),
        after.len() == entries.len(),
        after[p].0 == entries[p].0,
        entries[p].0 != other,
        forall|j: int| 0 <= j < entries.len() && j != p ==> after[j] == entries[j],
    ensures
        lookup(after, other) == lookup(entries, other),
        has_key(after, other) == has_key(entries, other),
{
    if has_key(entries, other) {
        lemma_has_first_index(entries, other);
        let q = first_index(entries, other);
        assert(q != p);
        assert(is_first_index(after, other, q)) by {
            assert(after[q] == entries[q]);
            assert forall|j: int| 0 <= j < q implies (#[trigger] after[j]).0 != other by {
                if j != p {
                    assert(after[j] == entries[j]);
                }
            }
        }
        lemma_first_index_unique(after, other, q);
    } else {
        assert forall|j: int| 0 <= j < after.len() implies (#[trigger] after[j]).0 != other by {
            if j != p {
                assert(after[j] == entries[j]);
            }
        }
        lemma_absent(after, other);
    }
}

/// `inserted` keeps the keys distinct.
pub proof fn lemma_distinct_inserted<V>(entries: Seq<(Seq<char>, V)>, key: Seq<char>, value: V)
    requires
        distinct_keys(entries),
    ensures
        distinct_keys(inserted(entries, key, value)),
{
    let after = inserted(entries, key, value);
    if has_key(entries, key) {
        lemma_has_first_index(entries, key);
        let p = first_index(entries, key);
        assert forall|i: int, j: int| 0 <= i < j < after.len() implies (#[trigger] after[i]).0 != (
        #[trigger] after[j]).0 by {
            assert(after[i].0 == entries[i].0);
            assert(after[j].0 == entries[j].0);
        }
    } else {
        assert forall|i: int, j: int| 0 <= i < j < after.len() implies (#[trigger] after[i]).0 != (
        #[trigger] after[j]).0 by {
            assert(after[i] == entries[i]);
            if j < entries.len() {
                assert(after[j] == entries[j]);
            } else {
                assert(entries[i].0 != key);
            }
        }
    }
}

} // verus!
