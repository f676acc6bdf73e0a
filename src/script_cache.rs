use vstd::prelude::*;

use crate::keyed::{
    has_key, keys_unique, lemma_drop_last_keeps_unique, lemma_front_keeps_unique,
    lemma_remove_keeps_unique, lemma_unique_index,
};

verus! {

#[verifier::external_type_specification]
#[verifier::external_body]
#[verifier::reject_recursive_types(K)]
#[verifier::reject_recursive_types(V)]
#[verifier::reject_recursive_types(S)]
pub struct ExLruCache<K, V, S>(lru::LruCache<K, V, S>);

#[verifier::external_type_specification]
#[verifier::external_body]
pub struct ExDefaultHasher(lru::DefaultHasher);

/// The entries of an `lru::LruCache`, most recently used first.
pub uninterp spec fn lru_entries(c: lru::LruCache<String, u64>) -> Seq<(Seq<char>, u64)>;

/// The capacity an `lru::LruCache` was made with.
pub uninterp spec fn lru_capacity(c: lru::LruCache<String, u64>) -> nat;

/// Relies on `lru::LruCache::new`: an empty cache of the given capacity.
#[verifier::external_body]
fn lru_new(cap: usize) -> (r: lru::LruCache<String, u64>)
    requires
        cap > 0,
    ensures
        lru_entries(r) == Seq::<(Seq<char>, u64)>::empty(),
        lru_capacity(r) == cap,
{
    lru::LruCache::new(std::num::NonZeroUsize::new(cap).unwrap())
}


/// Relies on `lru::LruCache::get`: the value under `key`, if any, and that
/// entry moved to the most recently used place; the cache is otherwise kept.
#[verifier::external_body]
fn lru_get(c: &mut lru::LruCache<String, u64>, key: &str) -> (r: Option<u64>)
    ensures
        lru_capacity(*final(c)) == lru_capacity(*old(c)),
        match r {
            Some(v) => exists|i: int|
                0 <= i < lru_entries(*old(c)).len() && lru_entries(*old(c))[i] == (key@, v)
                    && lru_entries(*final(c)) == seq![(key@, v)] + lru_entries(*old(c)).remove(i),
            None => (forall|i: int|
                0 <= i < lru_entries(*old(c)).len() ==> lru_entries(*old(c))[i].0 != key@)
                && lru_entries(*final(c)) == lru_entries(*old(c)),
        },
{
    c.get(key).copied()
}

/// Relies on `lru::LruCache::put`: a present key gets the new value and moves
/// to the most recently used place; an absent key is put there, and when the
/// cache is full the least recently used entry leaves first.
#[verifier::external_body]
fn lru_put(c: &mut lru::LruCache<String, u64>, key: String, value: u64) -> (r: Option<u64>)
    ensures
        lru_capacity(*final(c)) == lru_capacity(*old(c)),
        match r {
            Some(v) => exists|i: int|
                0 <= i < lru_entries(*old(c)).len() && lru_entries(*old(c))[i] == (key@, v)
                    && lru_entries(*final(c)) == seq![(key@, value)] + lru_entries(*old(c)).remove(i),
            None => (forall|i: int|
                0 <= i < lru_entries(*old(c)).len() ==> lru_entries(*old(c))[i].0 != key@)
                && lru_entries(*final(c)) == seq![(key@, value)] + (
                if lru_entries(*old(c)).len() == lru_capacity(*old(c)) {
                    lru_entries(*old(c)).drop_last()
                } else {
                    lru_entries(*old(c))
                }),
        },
{
    c.put(key, value)
}

/// How many compiled scripts the cache keeps.
pub const SCRIPT_CACHE_CAPACITY: usize = 100;

/// The entries after `key` was used: it moves to the front when present.
pub open spec fn touched(s: Seq<(Seq<char>, u64)>, key: Seq<char>) -> Seq<(Seq<char>, u64)> {
    if has_key(s, key) {
        let i = choose|i: int| 0 <= i < s.len() && s[i].0 == key;
        seq![s[i]] + s.remove(i)
    } else {
        s
    }
}

/// The entries after `key` was stored with `value` into a cache that holds
/// at most `cap` of them.
pub open spec fn stored(s: Seq<(Seq<char>, u64)>, key: Seq<char>, value: u64, cap: nat) -> Seq<
    (Seq<char>, u64),
> {
    if has_key(s, key) {
        let i = choose|i: int| 0 <= i < s.len() && s[i].0 == key;
        seq![(key, value)] + s.remove(i)
    } else if s.len() >= cap {
        seq![(key, value)] + s.drop_last()
    } else {
        seq![(key, value)] + s
    }
}

/// A bounded cache of compiled scripts keyed by their source text, which
/// forgets the least recently used one when it is full. A value is the
/// handle under which the engine's host keeps the compiled script.
pub struct ScriptCache {
    entries: lru::LruCache<String, u64>,
}

impl View for ScriptCache {
    type V = Seq<(Seq<char>, u64)>;

    /// The entries, most recently used first.
    closed spec fn view(&self) -> Seq<(Seq<char>, u64)> {
        lru_entries(self.entries)
    }
}

impl ScriptCache {
    /// Holds at most `SCRIPT_CACHE_CAPACITY` entries, no key twice.
    pub closed spec fn wf(&self) -> bool {
        &&& lru_capacity(self.entries) == SCRIPT_CACHE_CAPACITY
        &&& self@.len() <= SCRIPT_CACHE_CAPACITY
        &&& keys_unique(self@)
    }

    /// An empty cache.
    pub fn new() -> (r: ScriptCache)
        ensures
            r.wf(),
            r@ == Seq::<(Seq<char>, u64)>::empty(),
            r@.len() <= SCRIPT_CACHE_CAPACITY,
    {
        ScriptCache { entries: lru_new(SCRIPT_CACHE_CAPACITY) }
    }

    /// Looks `code` up, marking it as the most recently used entry when it is
    /// present; returns whether it was.
    pub fn lookup(&mut self, code: &str) -> (hit: bool)
        requires
            old(self).wf(),
        ensures
            final(self).wf(),
            final(self)@.len() <= SCRIPT_CACHE_CAPACITY,
            hit == has_key(old(self)@, code@),
            final(self)@ == touched(old(self)@, code@),
    {
        let r = lru_get(&mut self.entries, code);
        proof {
            let s = old(self)@;
            if let Some(v) = r {
                let i = choose|i: int|
                    0 <= i < s.len() && s[i] == (code@, v) && self@ == seq![(code@, v)] + s.remove(i);
                let j = choose|j: int| 0 <= j < s.len() && s[j].0 == code@;
                lemma_unique_index(s, i, j);
                lemma_remove_keeps_unique(s, i);
                lemma_front_keeps_unique(self@, s[i], s.remove(i));
            }
        }
        r.is_some()
    }

    /// Stores `value` under `code` as the most recently used entry.
    pub fn store(&mut self, code: String, value: u64)
        requires
            old(self).wf(),
        ensures
            final(self).wf(),
            final(self)@.len() <= SCRIPT_CACHE_CAPACITY,
            final(self)@ == stored(old(self)@, code@, value, SCRIPT_CACHE_CAPACITY as nat),
    {
        let ghost key = code@;
        let r = lru_put(&mut self.entries, code, value);
        proof {
            let s = old(self)@;
            if let Some(v) = r {
                let i = choose|i: int|
                    0 <= i < s.len() && s[i] == (key, v) && self@ == seq![(key, value)] + s.remove(i);
                let j = choose|j: int| 0 <= j < s.len() && s[j].0 == key;
                lemma_unique_index(s, i, j);
                lemma_remove_keeps_unique(s, i);
                lemma_front_keeps_unique(self@, (key, value), s.remove(i));
            } else {
                if s.len() == SCRIPT_CACHE_CAPACITY {
                    lemma_drop_last_keeps_unique(s, key);
                    lemma_front_keeps_unique(self@, (key, value), s.drop_last());
                } else {
                    lemma_front_keeps_unique(self@, (key, value), s);
                }
            }
        }
    }
}

} // verus!
