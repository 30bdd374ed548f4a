//! A map from names to values, kept as a list of entries in which no name occurs twice.

use vstd::prelude::*;
use vstd::pervasive::VecAdditionalExecFns;
use crate::text::str_eq;

verus! {

/// The map that a list of entries describes: where a name occurred more than once,
/// the later entry would win.
pub open spec fn entries_map<V: View>(e: Seq<(String, V)>) -> Map<Seq<char>, V::V>
    decreases e.len(),
{
    if e.len() == 0 {
        Map::empty()
    } else {
        entries_map(e.drop_last()).insert(e.last().0@, e.last().1@)
    }
}

/// No two entries carry the same name.
pub open spec fn names_unique<V>(e: Seq<(String, V)>) -> bool {
    forall|i: int, j: int| 0 <= i < e.len() && 0 <= j < e.len() && i != j ==> e[i].0@ != e[j].0@
}

/// Entry `i` is the last one named `k`.
pub open spec fn last_named<V>(e: Seq<(String, V)>, i: int, k: Seq<char>) -> bool {
    &&& 0 <= i < e.len()
    &&& e[i].0@ == k
    &&& forall|j: int| i < j < e.len() ==> e[j].0@ != k
}

/// A name that no entry carries is not in the map.
pub proof fn lemma_entries_map_absent<V: View>(e: Seq<(String, V)>, k: Seq<char>)
    requires
        forall|j: int| 0 <= j < e.len() ==> e[j].0@ != k,
    ensures
        !entries_map(e).contains_key(k),
    decreases e.len(),
{
    if e.len() > 0 {
        lemma_entries_map_absent(e.drop_last(), k);
    }
}

/// The map gives, for a name, the value of the last entry with that name.
pub proof fn lemma_entries_map_lookup<V: View>(e: Seq<(String, V)>, i: int, k: Seq<char>)
    requires
        last_named(e, i, k),
    ensures
        entries_map(e).contains_key(k),
        entries_map(e)[k] == e[i].1@,
    decreases e.len(),
{
    if i < e.len() - 1 {
        lemma_entries_map_lookup(e.drop_last(), i, k);
    }
}

/// Replacing the value of the last entry named `k` updates the map at `k`.
pub proof fn lemma_entries_map_update<V: View>(e: Seq<(String, V)>, i: int, k: Seq<char>, x: (String, V))
    requires
        last_named(e, i, k),
        x.0@ == k,
    ensures
        entries_map(e.update(i, x)) == entries_map(e).insert(k, x.1@),
    decreases e.len(),
{
    let u = e.update(i, x);
    if i == e.len() - 1 {
        assert(u.drop_last() =~= e.drop_last());
        assert(entries_map(u) =~= entries_map(e).insert(k, x.1@));
    } else {
        assert(u.drop_last() =~= e.drop_last().update(i, x));
        lemma_entries_map_update(e.drop_last(), i, k, x);
        assert(entries_map(u) =~= entries_map(e).insert(k, x.1@));
    }
}

/// A map from names to values.
#[derive(Debug, Clone, PartialEq, Eq)]
pub struct Table<V> {
    entries: Vec<(String, V)>,
}

impl<V: View> View for Table<V> {
    type V = Map<Seq<char>, V::V>;

    closed spec fn view(&self) -> Map<Seq<char>, V::V> {
        entries_map(self.entries@)
    }
}

impl<V: View> Table<V> {
    /// No name occurs twice among the entries.
    pub closed spec fn wf(&self) -> bool {
        names_unique(self.entries@)
    }

    /// The empty table.
    pub fn new() -> (t: Self)
        ensures
            t@ == Map::<Seq<char>, V::V>::empty(),
            t.wf(),
    {
        Table { entries: Vec::new() }
    }

    /// The index of the last entry named `name`, if there is one.
    fn find(&self, name: &str) -> (r: Option<usize>)
        ensures
            match r {
                Some(i) => last_named(self.entries@, i as int, name@),
                None => forall|j: int| 0 <= j < self.entries@.len() ==> self.entries@[j].0@ != name@,
            },
    {
        let mut i: usize = self.entries.len();
        while i > 0
            invariant
                i <= self.entries@.len(),
                forall|j: int| i <= j < self.entries@.len() ==> self.entries@[j].0@ != name@,
            decreases i,
        {
            if str_eq(self.entries[i - 1].0.as_str(), name) {
                return Some(i - 1);
            }
            i = i - 1;
        }
        None
    }

    /// The entries, each a name and the value stored under it.
    pub fn entries(&self) -> (r: &Vec<(String, V)>)
        ensures
            entries_map(r@) == self@,
            self.wf() ==> names_unique(r@),
    {
        &self.entries
    }

    /// Whether some value is stored under `name`.
    pub fn contains(&self, name: &str) -> (r: bool)
        ensures
            r == self@.contains_key(name@),
    {
        match self.find(name) {
            Some(i) => {
                proof { lemma_entries_map_lookup(self.entries@, i as int, name@); }
                true
            },
            None => {
                proof { lemma_entries_map_absent(self.entries@, name@); }
                false
            },
        }
    }

    /// The value stored under `name`.
    pub fn get(&self, name: &str) -> (r: Option<&V>)
        ensures
            r is Some <==> self@.contains_key(name@),
            r matches Some(v) ==> v@ == self@[name@],
    {
        match self.find(name) {
            Some(i) => {
                proof { lemma_entries_map_lookup(self.entries@, i as int, name@); }
                Some(&self.entries[i].1)
            },
            None => {
                proof { lemma_entries_map_absent(self.entries@, name@); }
                None
            },
        }
    }

    /// Stores `value` under `name`, replacing what was stored there.
    pub fn insert(&mut self, name: String, value: V)
        ensures
            final(self)@ == old(self)@.insert(name@, value@),
            old(self).wf() ==> final(self).wf(),
    {
        match self.find(name.as_str()) {
            Some(i) => {
                let ghost k = name@;
                let ghost e = self.entries@;
                let x = (name, value);
                proof { lemma_entries_map_update(e, i as int, k, x); }
                self.entries.set(i, x);
            },
            None => {
                let ghost e = self.entries@;
                self.entries.push((name, value));
                assert(self.entries@.drop_last() =~= e);
            },
        }
    }
}

} // verus!
