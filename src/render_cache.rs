use vstd::prelude::*;

use crate::keyed::{
    has_key, keys_unique, lemma_map_of_index, lemma_map_of_with_entry, lemma_unique_index,
    lemma_with_entry_keeps_unique, map_of,
};

verus! {

/// Finished renders, by the parameter string they were made with. Nothing
/// leaves it.
pub struct RenderCache {
    entries: Vec<(String, String)>,
}

impl RenderCache {
    closed spec fn pairs(&self) -> Seq<(Seq<char>, Seq<char>)> {
        self.entries@.map_values(|e: (String, String)| (e.0@, e.1@))
    }

    /// No key is stored twice.
    pub closed spec fn wf(&self) -> bool {
        keys_unique(self.pairs())
    }

    /// An empty cache.
    pub fn new() -> (r: RenderCache)
        ensures
            r.wf(),
            r@ == Map::<Seq<char>, Seq<char>>::empty(),
    {
        let r = RenderCache { entries: Vec::new() };
        assert(r.pairs() =~= Seq::<(Seq<char>, Seq<char>)>::empty());
        assert(r@ =~= Map::<Seq<char>, Seq<char>>::empty());
        r
    }

    /// The output stored under `key`, if any.
    pub fn lookup(&self, key: &str) -> (r: Option<String>)
        requires
            self.wf(),
        ensures
            r.is_some() == self@.contains_key(key@),
            r.is_some() ==> r.unwrap()@ == self@[key@],
    {
        let ghost s = self.pairs();
        let mut i: usize = 0;
        while i < self.entries.len()
            invariant
                0 <= i <= self.entries.len(),
                s == self.pairs(),
                keys_unique(s),
                forall|j: int| 0 <= j < i ==> s[j].0 != key@,
            decreases self.entries.len() - i,
        {
            assert(s[i as int] == (self.entries@[i as int].0@, self.entries@[i as int].1@));
            if self.entries[i].0.as_str().to_owned() == key.to_owned() {
                proof {
                    lemma_map_of_index(s, i as int);
                }
                return Some(self.entries[i].1.clone());
            }
            i = i + 1;
        }
        assert(!has_key(s, key@));
        None
    }

    /// Stores `value` under `key`, in place of what was there.
    pub fn store(&mut self, key: String, value: String)
        requires
            old(self).wf(),
        ensures
            final(self).wf(),
            final(self)@ == old(self)@.insert(key@, value@),
    {
        let ghost s = self.pairs();
        proof {
            lemma_with_entry_keeps_unique(s, key@, value@);
            lemma_map_of_with_entry(s, key@, value@);
        }
        let mut i: usize = 0;
        while i < self.entries.len() && !(self.entries[i].0 == key)
            invariant
                0 <= i <= self.entries.len(),
                s == self.pairs(),
                keys_unique(s),
                forall|j: int| 0 <= j < i ==> s[j].0 != key@,
            decreases self.entries.len() - i,
        {
            assert(s[i as int] == (self.entries@[i as int].0@, self.entries@[i as int].1@));
            i = i + 1;
        }
        if i < self.entries.len() {
            assert(s[i as int] == (self.entries@[i as int].0@, self.entries@[i as int].1@));
            proof {
                let k = choose|k: int| 0 <= k < s.len() && s[k].0 == key@;
                lemma_unique_index(s, i as int, k);
            }
            self.entries.set(i, (key, value));
            assert(self.pairs() =~= s.update(i as int, (key@, value@)));
        } else {
            assert(!has_key(s, key@));
            self.entries.push((key, value));
            assert(self.pairs() =~= s.push((key@, value@)));
        }
    }
}

impl View for RenderCache {
    type V = Map<Seq<char>, Seq<char>>;

    /// The stored outputs by key.
    closed spec fn view(&self) -> Map<Seq<char>, Seq<char>> {
        map_of(self.pairs())
    }
}

} // verus!
