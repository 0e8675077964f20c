//! String-keyed association table: the shared-map primitive behind the
//! process registry, the application bindings, and the hub's channel table.
//!
//! A table denotes a `Map<Seq<char>, V>`. Entries are kept in a vector whose
//! keys are pairwise distinct; every operation is specified against the map
//! model.

use vstd::prelude::*;

verus! {

/// The map denoted by a sequence of key/value entries (later entries win;
/// under `distinct_keys` each key occurs at most once).
pub open spec fn table_model<V>(entries: Seq<(String, V)>) -> Map<Seq<char>, V>
    decreases entries.len(),
{
    if entries.len() == 0 {
        Map::empty()
    } else {
        table_model(entries.drop_last()).insert(entries.last().0@, entries.last().1)
    }
}

/// No two entries share a key.
pub open spec fn distinct_keys<V>(entries: Seq<(String, V)>) -> bool {
    forall|i: int, j: int| 0 <= i < j < entries.len() ==> entries[i].0@ != entries[j].0@
}

proof fn lemma_model_contains_key<V>(entries: Seq<(String, V)>, k: Seq<char>)
    ensures
        table_model(entries).contains_key(k) <==> (exists|i: int|
            0 <= i < entries.len() && entries[i].0@ == k),
    decreases entries.len(),
{
    if entries.len() > 0 {
        lemma_model_contains_key(entries.drop_last(), k);
        if entries.last().0@ == k {
            assert(entries[entries.len() - 1].0@ == k);
        } else {
            if table_model(entries).contains_key(k) {
                let i = choose|i: int|
                    0 <= i < entries.drop_last().len() && entries.drop_last()[i].0@ == k;
                assert(entries[i].0@ == k);
            }
            if exists|i: int| 0 <= i < entries.len() && entries[i].0@ == k {
                let i = choose|i: int| 0 <= i < entries.len() && entries[i].0@ == k;
                assert(entries.drop_last()[i].0@ == k);
            }
        }
    }
}

proof fn lemma_model_index<V>(entries: Seq<(String, V)>, i: int)
    requires
        distinct_keys(entries),
        0 <= i < entries.len(),
    ensures
        table_model(entries).contains_key(entries[i].0@),
        table_model(entries)[entries[i].0@] == entries[i].1,
    decreases entries.len(),
{
    if i < entries.len() - 1 {
        assert(distinct_keys(entries.drop_last())) by {
            assert(forall|p: int, q: int|
                0 <= p < q < entries.drop_last().len() ==> entries.drop_last()[p]
                    == entries[p] && entries.drop_last()[q] == entries[q]);
        }
        lemma_model_index(entries.drop_last(), i);
        assert(entries.drop_last()[i] == entries[i]);
        assert(entries.last().0@ != entries[i].0@);
    }
}

proof fn lemma_distinct_drop_last<V>(entries: Seq<(String, V)>)
    requires
        distinct_keys(entries),
        entries.len() > 0,
    ensures
        distinct_keys(entries.drop_last()),
{
    assert(forall|p: int, q: int|
        0 <= p < q < entries.drop_last().len() ==> entries.drop_last()[p] == entries[p]
            && entries.drop_last()[q] == entries[q]);
}

proof fn lemma_distinct_remove_at<V>(entries: Seq<(String, V)>, i: int)
    requires
        distinct_keys(entries),
        0 <= i < entries.len(),
    ensures
        distinct_keys(entries.remove(i)),
{
    entries.remove_ensures(i);
    assert forall|p: int, q: int|
        0 <= p < q < entries.remove(i).len() implies entries.remove(i)[p].0@
        != entries.remove(i)[q].0@ by {
        let p0: int = if p < i { p } else { p + 1 };
        let q0: int = if q < i { q } else { q + 1 };
        assert(entries.remove(i)[p] == entries[p0]);
        assert(entries.remove(i)[q] == entries[q0]);
    }
}

proof fn lemma_model_remove_at<V>(entries: Seq<(String, V)>, i: int)
    requires
        distinct_keys(entries),
        0 <= i < entries.len(),
    ensures
        table_model(entries.remove(i)) == table_model(entries).remove(entries[i].0@),
    decreases entries.len(),
{
    let k = entries[i].0@;
    entries.remove_ensures(i);
    if i == entries.len() - 1 {
        assert(entries.remove(i) =~= entries.drop_last());
        lemma_model_contains_key(entries.drop_last(), k);
        assert(!table_model(entries.drop_last()).contains_key(k)) by {
            if exists|j: int|
                0 <= j < entries.drop_last().len() && entries.drop_last()[j].0@ == k {
                let j = choose|j: int|
                    0 <= j < entries.drop_last().len() && entries.drop_last()[j].0@ == k;
                assert(entries[j].0@ == entries[i].0@);
            }
        }
        assert(table_model(entries.drop_last()).insert(k, entries.last().1).remove(k)
            =~= table_model(entries.drop_last()));
    } else {
        let prefix = entries.drop_last();
        lemma_distinct_drop_last(entries);
        lemma_model_remove_at(prefix, i);
        assert(prefix[i] == entries[i]);
        assert(entries.remove(i).len() == entries.len() - 1);
        assert(entries.remove(i).last() == entries.last());
        assert(entries.remove(i).drop_last() =~= prefix.remove(i)) by {
            prefix.remove_ensures(i);
        }
        assert(entries.last().0@ != k);
        assert(table_model(prefix).remove(k).insert(entries.last().0@, entries.last().1)
            =~= table_model(prefix).insert(entries.last().0@, entries.last().1).remove(k));
    }
}

proof fn lemma_model_len<V>(entries: Seq<(String, V)>)
    requires
        distinct_keys(entries),
    ensures
        table_model(entries).dom().finite(),
        table_model(entries).dom().len() == entries.len(),
    decreases entries.len(),
{
    if entries.len() == 0 {
        assert(table_model(entries).dom() =~= Set::<Seq<char>>::empty());
    } else {
        lemma_distinct_drop_last(entries);
        lemma_model_len(entries.drop_last());
        lemma_model_contains_key(entries.drop_last(), entries.last().0@);
        assert(!table_model(entries.drop_last()).contains_key(entries.last().0@)) by {
            if exists|j: int|
                0 <= j < entries.drop_last().len() && entries.drop_last()[j].0@
                    == entries.last().0@ {
                let j = choose|j: int|
                    0 <= j < entries.drop_last().len() && entries.drop_last()[j].0@
                        == entries.last().0@;
                assert(entries[j].0@ == entries[entries.len() - 1].0@);
            }
        }
        assert(table_model(entries).dom()
            =~= table_model(entries.drop_last()).dom().insert(entries.last().0@));
    }
}

/// An association table with `String` keys, modelled as a `Map<Seq<char>, V>`.
pub struct StrTable<V> {
    entries: Vec<(String, V)>,
}

impl<V> View for StrTable<V> {
    type V = Map<Seq<char>, V>;

    closed spec fn view(&self) -> Map<Seq<char>, V> {
        table_model(self.entries@)
    }
}

impl<V> StrTable<V> {
    /// The keys of the underlying entries are pairwise distinct.
    pub closed spec fn wf(&self) -> bool {
        distinct_keys(self.entries@)
    }

    /// An empty table.
    pub fn new() -> (r: Self)
        ensures
            r.wf(),
            r@ == Map::<Seq<char>, V>::empty(),
    {
        StrTable { entries: Vec::new() }
    }

    /// The number of entries, equal to the cardinality of the map's domain.
    pub fn len(&self) -> (r: usize)
        requires
            self.wf(),
        ensures
            r == self@.dom().len(),
            self@.dom().finite(),
    {
        proof {
            lemma_model_len(self.entries@);
        }
        self.entries.len()
    }

    /// Index of the entry holding a key, if any.
    fn index_of_key(&self, key: &String) -> (r: Option<usize>)
        ensures
            match r {
                Some(i) => i < self.entries@.len() && self.entries@[i as int].0@ == key@,
                None => forall|j: int| 0 <= j < self.entries@.len() ==> self.entries@[j].0@
                    != key@,
            },
    {
        let n: usize = self.entries.len();
        let mut i: usize = 0;
        while i < n
            invariant
                n == self.entries@.len(),
                i <= n,
                forall|j: int| 0 <= j < i ==> self.entries@[j].0@ != key@,
            decreases n - i,
        {
            if self.entries[i].0 == *key {
                return Some(i);
            }
            i = i + 1;
        }
        None
    }

    /// Look a key up.
    pub fn get(&self, key: &String) -> (r: Option<&V>)
        requires
            self.wf(),
        ensures
            match r {
                Some(v) => self@.contains_key(key@) && *v == self@[key@],
                None => !self@.contains_key(key@),
            },
    {
        match self.index_of_key(key) {
            Some(i) => {
                proof {
                    lemma_model_index(self.entries@, i as int);
                }
                Some(&self.entries[i].1)
            },
            None => {
                proof {
                    lemma_model_contains_key(self.entries@, key@);
                }
                None
            },
        }
    }

    /// Whether a key is present.
    pub fn contains_key(&self, key: &String) -> (r: bool)
        requires
            self.wf(),
        ensures
            r == self@.contains_key(key@),
    {
        self.get(key).is_some()
    }

    /// Remove a key, returning its value if it was present.
    pub fn remove(&mut self, key: &String) -> (r: Option<V>)
        requires
            old(self).wf(),
        ensures
            final(self).wf(),
            final(self)@ == old(self)@.remove(key@),
            match r {
                Some(v) => old(self)@.contains_key(key@) && v == old(self)@[key@],
                None => !old(self)@.contains_key(key@) && final(self)@ == old(self)@,
            },
    {
        match self.index_of_key(key) {
            Some(i) => {
                proof {
                    lemma_model_index(self.entries@, i as int);
                    lemma_model_remove_at(self.entries@, i as int);
                    lemma_distinct_remove_at(self.entries@, i as int);
                }
                let entry = self.entries.remove(i);
                Some(entry.1)
            },
            None => {
                proof {
                    lemma_model_contains_key(self.entries@, key@);
                    assert(self@.remove(key@) =~= self@);
                }
                None
            },
        }
    }

    /// Insert a key/value pair, replacing any entry the key already had.
    pub fn insert(&mut self, key: String, value: V)
        requires
            old(self).wf(),
        ensures
            final(self).wf(),
            final(self)@ == old(self)@.insert(key@, value),
    {
        let _ = self.remove(&key);
        let ghost pruned = self.entries@;
        proof {
            lemma_model_contains_key(pruned, key@);
        }
        self.entries.push((key, value));
        proof {
            assert(self.entries@.drop_last() =~= pruned);
            assert(distinct_keys(self.entries@)) by {
                assert(forall|p: int|
                    0 <= p < pruned.len() ==> self.entries@[p] == pruned[p]);
            }
            assert(final(self)@ =~= old(self)@.insert(key@, value));
        }
    }

}

impl StrTable<String> {
    /// Index of the first entry holding a value, if any.
    fn index_of_value(&self, value: &String) -> (r: Option<usize>)
        ensures
            match r {
                Some(i) => i < self.entries@.len() && self.entries@[i as int].1@ == value@,
                None => forall|j: int| 0 <= j < self.entries@.len() ==> self.entries@[j].1@
                    != value@,
            },
    {
        let n: usize = self.entries.len();
        let mut i: usize = 0;
        while i < n
            invariant
                n == self.entries@.len(),
                i <= n,
                forall|j: int| 0 <= j < i ==> self.entries@[j].1@ != value@,
            decreases n - i,
        {
            if self.entries[i].1 == *value {
                return Some(i);
            }
            i = i + 1;
        }
        None
    }

    /// Remove the first entry holding the given value, returning its key.
    pub fn remove_by_value(&mut self, value: &String) -> (r: Option<String>)
        requires
            old(self).wf(),
        ensures
            final(self).wf(),
            match r {
                Some(k) => old(self)@.contains_key(k@) && old(self)@[k@]@ == value@
                    && final(self)@ == old(self)@.remove(k@),
                None => final(self)@ == old(self)@ && (forall|k: Seq<char>|
                    old(self)@.contains_key(k) ==> old(self)@[k]@ != value@),
            },
    {
        match self.index_of_value(value) {
            Some(i) => {
                proof {
                    lemma_model_index(self.entries@, i as int);
                    lemma_model_remove_at(self.entries@, i as int);
                    lemma_distinct_remove_at(self.entries@, i as int);
                }
                let entry = self.entries.remove(i);
                Some(entry.0)
            },
            None => {
                proof {
                    assert forall|k: Seq<char>| self@.contains_key(k) implies self@[k]@
                        != value@ by {
                        lemma_model_contains_key(self.entries@, k);
                        let j = choose|j: int|
                            0 <= j < self.entries@.len() && self.entries@[j].0@ == k;
                        lemma_model_index(self.entries@, j);
                    }
                }
                None
            },
        }
    }
}

} // verus!
