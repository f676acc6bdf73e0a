use vstd::prelude::*;

use crate::keyed::{
    has_key, keys_unique, lemma_unique_index, lemma_with_entry_keeps_unique, with_entry,
};

verus! {

/// An own property of the value that a CommonJS entry script gave: its name,
/// and the handle of the function it holds, where it holds one.
pub struct Property {
    pub name: String,
    pub function: Option<u64>,
}

/// The registry after the callable ones among `props` were registered under
/// their names, in order.
pub open spec fn with_exports(s: Seq<(Seq<char>, u64)>, props: Seq<Property>) -> Seq<
    (Seq<char>, u64),
>
    decreases props.len(),
{
    if props.len() == 0 {
        s
    } else {
        let before = with_exports(s, props.drop_last());
        match props.last().function {
            Some(f) => with_entry(before, props.last().name@, f),
            None => before,
        }
    }
}

/// The exported functions of everything loaded, by name, in the order in
/// which they were first registered. A value is the handle under which the
/// engine's host keeps the function.
pub struct FunctionRegistry {
    entries: Vec<(String, u64)>,
}

impl View for FunctionRegistry {
    type V = Seq<(Seq<char>, u64)>;

    closed spec fn view(&self) -> Seq<(Seq<char>, u64)> {
        self.entries@.map_values(|e: (String, u64)| (e.0@, e.1))
    }
}

impl FunctionRegistry {
    /// No name is registered twice.
    pub closed spec fn wf(&self) -> bool {
        keys_unique(self@)
    }

    /// An empty registry.
    pub fn new() -> (r: FunctionRegistry)
        ensures
            r.wf(),
            r@ == Seq::<(Seq<char>, u64)>::empty(),
    {
        let r = FunctionRegistry { entries: Vec::new() };
        assert(r@ =~= Seq::<(Seq<char>, u64)>::empty());
        r
    }

    /// How many functions are registered.
    pub fn len(&self) -> (n: usize)
        ensures
            n == self@.len(),
    {
        self.entries.len()
    }

    /// The handle of the `i`-th registered function.
    pub fn function_at(&self, i: usize) -> (f: u64)
        requires
            i < self@.len(),
        ensures
            f == self@[i as int].1,
    {
        self.entries[i].1
    }

    /// Registers `function` under `name`: a name already present keeps its
    /// place and takes the new function.
    pub fn register(&mut self, name: String, function: u64)
        requires
            old(self).wf(),
        ensures
            final(self).wf(),
            final(self)@ == with_entry(old(self)@, name@, function),
    {
        let ghost s = self@;
        proof {
            lemma_with_entry_keeps_unique(s, name@, function);
        }
        let mut i: usize = 0;
        while i < self.entries.len() && !(self.entries[i].0 == name)
            invariant
                0 <= i <= self.entries.len(),
                self@ == s,
                keys_unique(s),
                forall|j: int| 0 <= j < i ==> s[j].0 != name@,
            decreases self.entries.len() - i,
        {
            assert(s[i as int] == (self.entries@[i as int].0@, self.entries@[i as int].1));
            i = i + 1;
        }
        if i < self.entries.len() {
            assert(s[i as int] == (self.entries@[i as int].0@, self.entries@[i as int].1));
            proof {
                let k = choose|k: int| 0 <= k < s.len() && s[k].0 == name@;
                lemma_unique_index(s, i as int, k);
            }
            self.entries.set(i, (name, function));
            assert(self@ =~= s.update(i as int, (name@, function)));
        } else {
            assert(!has_key(s, name@));
            self.entries.push((name, function));
            assert(self@ =~= s.push((name@, function)));
        }
    }

    /// Registers the callable ones among `props` under their names, in order.
    pub fn register_exports(&mut self, props: Vec<Property>)
        requires
            old(self).wf(),
        ensures
            final(self).wf(),
            final(self)@ == with_exports(old(self)@, props@),
    {
        let ghost s = self@;
        let ghost all = props@;
        let mut done: usize = 0;
        while done < props.len()
            invariant
                self.wf(),
                done <= all.len(),
                props@ == all,
                self@ == with_exports(s, all.take(done as int)),
            decreases all.len() - done,
        {
            assert(all.take(done + 1).drop_last() =~= all.take(done as int));
            match props[done].function {
                Some(f) => self.register(props[done].name.clone(), f),
                None => {},
            }
            done = done + 1;
        }
        assert(all.take(done as int) =~= all);
    }
}

} // verus!
