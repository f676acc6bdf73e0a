use vstd::prelude::*;

verus! {

// Sequences of entries that pair a key, a string, with a value.

/// No key occurs twice.
pub open spec fn keys_unique<V>(s: Seq<(Seq<char>, V)>) -> bool {
    forall|i: int, j: int| 0 <= i < j < s.len() ==> s[i].0 != s[j].0
}

/// Whether `key` is among the entries.
pub open spec fn has_key<V>(s: Seq<(Seq<char>, V)>, key: Seq<char>) -> bool {
    exists|i: int| 0 <= i < s.len() && s[i].0 == key
}

pub proof fn lemma_unique_index<V>(s: Seq<(Seq<char>, V)>, i: int, j: int)
    requires
        keys_unique(s),
        0 <= i < s.len(),
        0 <= j < s.len(),
        s[i].0 == s[j].0,
    ensures
        i == j,
{
}

pub proof fn lemma_front_keeps_unique<V>(s: Seq<(Seq<char>, V)>, e: (Seq<char>, V), rest: Seq<(Seq<char>, V)>)
    requires
        keys_unique(rest),
        !has_key(rest, e.0),
        s == seq![e] + rest,
    ensures
        keys_unique(s),
{
    assert forall|i: int, j: int| 0 <= i < j < s.len() implies s[i].0 != s[j].0 by {
        if i == 0 {
            assert(rest[j - 1] == s[j]);
        } else {
            assert(rest[i - 1] == s[i] && rest[j - 1] == s[j]);
        }
    }
}

pub proof fn lemma_remove_keeps_unique<V>(s: Seq<(Seq<char>, V)>, i: int)
    requires
        keys_unique(s),
        0 <= i < s.len(),
    ensures
        keys_unique(s.remove(i)),
        !has_key(s.remove(i), s[i].0),
{
    let r = s.remove(i);
    assert forall|a: int, b: int| 0 <= a < b < r.len() implies r[a].0 != r[b].0 by {
        let a2 = if a < i { a } else { a + 1 };
        let b2 = if b < i { b } else { b + 1 };
        assert(r[a] == s[a2] && r[b] == s[b2]);
    }
    if has_key(r, s[i].0) {
        let k = choose|k: int| 0 <= k < r.len() && r[k].0 == s[i].0;
        let k2 = if k < i { k } else { k + 1 };
        assert(r[k] == s[k2]);
    }
}

pub proof fn lemma_drop_last_keeps_unique<V>(s: Seq<(Seq<char>, V)>, key: Seq<char>)
    requires
        keys_unique(s),
        !has_key(s, key),
        s.len() > 0,
    ensures
        keys_unique(s.drop_last()),
        !has_key(s.drop_last(), key),
{
    let d = s.drop_last();
    assert forall|a: int, b: int| 0 <= a < b < d.len() implies d[a].0 != d[b].0 by {
        assert(d[a] == s[a] && d[b] == s[b]);
    }
    if has_key(d, key) {
        let k = choose|k: int| 0 <= k < d.len() && d[k].0 == key;
        assert(d[k] == s[k]);
    }
}

/// The entries after `value` was put under `key`: in place where the key is
/// present, else at the end.
pub open spec fn with_entry<V>(s: Seq<(Seq<char>, V)>, key: Seq<char>, value: V) -> Seq<
    (Seq<char>, V),
> {
    if has_key(s, key) {
        let i = choose|i: int| 0 <= i < s.len() && s[i].0 == key;
        s.update(i, (key, value))
    } else {
        s.push((key, value))
    }
}

pub proof fn lemma_with_entry_keeps_unique<V>(s: Seq<(Seq<char>, V)>, key: Seq<char>, value: V)
    requires
        keys_unique(s),
    ensures
        keys_unique(with_entry(s, key, value)),
        has_key(with_entry(s, key, value), key),
{
    let r = with_entry(s, key, value);
    if has_key(s, key) {
        let i = choose|i: int| 0 <= i < s.len() && s[i].0 == key;
        assert(r[i].0 == key);
        assert forall|a: int, b: int| 0 <= a < b < r.len() implies r[a].0 != r[b].0 by {
            assert(r[a].0 == s[a].0 && r[b].0 == s[b].0);
        }
    } else {
        assert(r[s.len() as int].0 == key);
        assert forall|a: int, b: int| 0 <= a < b < r.len() implies r[a].0 != r[b].0 by {
            if b < s.len() {
                assert(r[a] == s[a] && r[b] == s[b]);
            } else {
                assert(r[a] == s[a]);
            }
        }
    }
}

/// The entries read as a map from key to value.
pub open spec fn map_of<V>(s: Seq<(Seq<char>, V)>) -> Map<Seq<char>, V> {
    Map::new(
        |k: Seq<char>| has_key(s, k),
        |k: Seq<char>| s[choose|i: int| 0 <= i < s.len() && s[i].0 == k].1,
    )
}

pub proof fn lemma_map_of_index<V>(s: Seq<(Seq<char>, V)>, i: int)
    requires
        keys_unique(s),
        0 <= i < s.len(),
    ensures
        map_of(s).contains_key(s[i].0),
        map_of(s)[s[i].0] == s[i].1,
{
    let k = choose|k: int| 0 <= k < s.len() && s[k].0 == s[i].0;
    lemma_unique_index(s, i, k);
}

pub proof fn lemma_map_of_with_entry<V>(s: Seq<(Seq<char>, V)>, key: Seq<char>, value: V)
    requires
        keys_unique(s),
    ensures
        map_of(with_entry(s, key, value)) == map_of(s).insert(key, value),
{
    let r = with_entry(s, key, value);
    lemma_with_entry_keeps_unique(s, key, value);
    let m = map_of(s).insert(key, value);
    assert forall|k: Seq<char>| #[trigger] has_key(r, k) == m.contains_key(k) by {
        if has_key(s, key) {
            let i = choose|i: int| 0 <= i < s.len() && s[i].0 == key;
            if has_key(s, k) {
                let j = choose|j: int| 0 <= j < s.len() && s[j].0 == k;
                assert(r[j].0 == k);
            }
            if has_key(r, k) {
                let j = choose|j: int| 0 <= j < r.len() && r[j].0 == k;
                assert(r[j].0 == s[j].0);
            }
        } else {
            if has_key(s, k) {
                let j = choose|j: int| 0 <= j < s.len() && s[j].0 == k;
                assert(r[j].0 == k);
            }
            if has_key(r, k) {
                let j = choose|j: int| 0 <= j < r.len() && r[j].0 == k;
                if j < s.len() {
                    assert(r[j] == s[j]);
                }
            }
        }
    }
    assert forall|k: Seq<char>| #[trigger] m.contains_key(k) implies map_of(r)[k] == m[k] by {
        assert(has_key(r, k));
        let j = choose|j: int| 0 <= j < r.len() && r[j].0 == k;
        lemma_map_of_index(r, j);
        if k != key {
            if has_key(s, key) {
                let i = choose|i: int| 0 <= i < s.len() && s[i].0 == key;
                assert(j != i);
                assert(r[j] == s[j]);
            } else {
                assert(j < s.len());
                assert(r[j] == s[j]);
            }
            lemma_map_of_index(s, j);
        } else {
            if has_key(s, key) {
                let i = choose|i: int| 0 <= i < s.len() && s[i].0 == key;
                assert(r[i] == (key, value));
                lemma_unique_index(r, i, j);
            } else {
                assert(r[s.len() as int] == (key, value));
                lemma_unique_index(r, s.len() as int, j);
            }
        }
    }
    assert(map_of(r) =~= m);
}

} // verus!
