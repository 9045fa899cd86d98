//! A small insertion-ordered dictionary.
//!
//! The builder keeps headers, query parameters, metadata and rule sets in
//! dictionaries whose keys are texts or structural paths. Keys are compared by
//! what they denote, so the dictionary is viewed as a mathematical map from
//! key models to value models.
use vstd::prelude::*;

verus! {

/// A key that can be compared by its model.
pub trait Key: DeepView + Sized {
    /// Whether two keys denote the same thing.
    fn same(&self, other: &Self) -> (r: bool)
        ensures
            r == (self.deep_view() == other.deep_view()),
    ;
}

impl Key for String {
    fn same(&self, other: &Self) -> (r: bool) {
        *self == *other
    }
}

/// The map that a sequence of entries denotes: later entries win.
pub open spec fn entries_map<A, B>(entries: Seq<(A, B)>) -> Map<A, B>
    decreases entries.len(),
{
    if entries.len() == 0 {
        Map::empty()
    } else {
        entries_map(entries.drop_last()).insert(entries.last().0, entries.last().1)
    }
}

/// A key is in the map exactly if some entry carries it.
pub proof fn lemma_entries_map_dom<A, B>(entries: Seq<(A, B)>, key: A)
    ensures
        entries_map(entries).contains_key(key) <==> exists|i: int|
            0 <= i < entries.len() && (#[trigger] entries[i]).0 == key,
    decreases entries.len(),
{
    if entries.len() > 0 {
        let front = entries.drop_last();
        lemma_entries_map_dom(front, key);
        if entries_map(entries).contains_key(key) {
            if entries.last().0 == key {
                assert(entries[entries.len() - 1].0 == key);
            } else {
                let i = choose|i: int| 0 <= i < front.len() && (#[trigger] front[i]).0 == key;
                assert(entries[i] == front[i]);
            }
        }
        if exists|i: int| 0 <= i < entries.len() && (#[trigger] entries[i]).0 == key {
            let i = choose|i: int| 0 <= i < entries.len() && (#[trigger] entries[i]).0 == key;
            if i < front.len() {
                assert(front[i] == entries[i]);
            }
        }
    }
}

/// The entry at `i` decides the value of its key when no later entry carries
/// the same key.
pub proof fn lemma_entries_map_last<A, B>(entries: Seq<(A, B)>, i: int)
    requires
        0 <= i < entries.len(),
        forall|j: int| i < j < entries.len() ==> (#[trigger] entries[j]).0 != entries[i].0,
    ensures
        entries_map(entries).contains_key(entries[i].0),
        entries_map(entries)[entries[i].0] == entries[i].1,
    decreases entries.len(),
{
    if i < entries.len() - 1 {
        let front = entries.drop_last();
        assert(entries[entries.len() - 1].0 != entries[i].0);
        assert forall|j: int| i < j < front.len() implies (#[trigger] front[j]).0 != front[i].0 by {
            assert(front[j] == entries[j]);
        }
        lemma_entries_map_last(front, i);
    }
}

/// Replacing the value of the deciding entry of a key is an insertion into
/// the map.
pub proof fn lemma_entries_map_update<A, B>(entries: Seq<(A, B)>, i: int, value: B)
    requires
        0 <= i < entries.len(),
        forall|j: int| i < j < entries.len() ==> (#[trigger] entries[j]).0 != entries[i].0,
    ensures
        entries_map(entries.update(i, (entries[i].0, value))) == entries_map(entries).insert(
            entries[i].0,
            value,
        ),
    decreases entries.len(),
{
    let key = entries[i].0;
    let after = entries.update(i, (key, value));
    if i == entries.len() - 1 {
        assert(after.drop_last() =~= entries.drop_last());
        assert(entries_map(after) =~= entries_map(entries).insert(key, value));
    } else {
        let front = entries.drop_last();
        assert(entries[entries.len() - 1].0 != key);
        assert forall|j: int| i < j < front.len() implies (#[trigger] front[j]).0 != front[i].0 by {
            assert(front[j] == entries[j]);
        }
        lemma_entries_map_update(front, i, value);
        assert(after.drop_last() =~= front.update(i, (key, value)));
        assert(after.last() == entries.last());
        assert(entries_map(after) =~= entries_map(entries).insert(key, value));
    }
}

/// Appending an entry is an insertion into the map.
pub proof fn lemma_entries_map_push<A, B>(entries: Seq<(A, B)>, key: A, value: B)
    ensures
        entries_map(entries.push((key, value))) == entries_map(entries).insert(key, value),
{
    assert(entries.push((key, value)).drop_last() =~= entries);
}

/// An insertion-ordered dictionary.
#[derive(Debug)]
pub struct Dict<K, V> {
    pub entries: Vec<(K, V)>,
}

impl<K: Key, V: DeepView> View for Dict<K, V> {
    type V = Map<K::V, V::V>;

    open spec fn view(&self) -> Map<K::V, V::V> {
        entries_map(self.entries.deep_view())
    }
}

impl<K: Key, V: DeepView> DeepView for Dict<K, V> {
    type V = Map<K::V, V::V>;

    open spec fn deep_view(&self) -> Map<K::V, V::V> {
        self@
    }
}

impl<K: Key, V: DeepView> Dict<K, V> {
    /// An empty dictionary.
    pub fn new() -> (d: Self)
        ensures
            d@ == Map::<K::V, V::V>::empty(),
            d.entries@.len() == 0,
    {
        let d = Dict { entries: Vec::new() };
        assert(d.entries.deep_view() =~= Seq::empty());
        d
    }

    /// The number of entries held.
    pub fn len(&self) -> (n: usize)
        ensures
            n == self.entries@.len(),
    {
        self.entries.len()
    }

    /// The position of the entry that decides `key`: the last one carrying it.
    pub fn position(&self, key: &K) -> (r: Option<usize>)
        ensures
            match r {
                Some(i) => {
                    &&& i < self.entries@.len()
                    &&& self.entries@[i as int].0.deep_view() == key.deep_view()
                    &&& forall|j: int|
                        i < j < self.entries@.len() ==> (#[trigger] self.entries@[j]).0.deep_view()
                            != key.deep_view()
                    &&& self@.contains_key(key.deep_view())
                    &&& self@[key.deep_view()] == self.entries@[i as int].1.deep_view()
                },
                None => !self@.contains_key(key.deep_view()),
            },
    {
        let mut found: Option<usize> = None;
        let mut i: usize = 0;
        while i < self.entries.len()
            invariant
                i <= self.entries@.len(),
                match found {
                    Some(k) => k < i && self.entries@[k as int].0.deep_view() == key.deep_view()
                        && forall|j: int|
                        k < j < i ==> (#[trigger] self.entries@[j]).0.deep_view()
                            != key.deep_view(),
                    None => forall|j: int|
                        0 <= j < i ==> (#[trigger] self.entries@[j]).0.deep_view()
                            != key.deep_view(),
                },
            decreases self.entries@.len() - i,
        {
            if self.entries[i].0.same(key) {
                found = Some(i);
            }
            i += 1;
        }
        proof {
            let models = self.entries.deep_view();
            assert forall|j: int| 0 <= j < models.len() implies (#[trigger] models[j]).0
                == self.entries@[j].0.deep_view() by {}
            match found {
                Some(k) => {
                    assert(models[k as int].0 == key.deep_view());
                    lemma_entries_map_last(models, k as int);
                },
                None => {
                    lemma_entries_map_dom(models, key.deep_view());
                },
            }
        }
        found
    }

    /// Whether `key` has a value.
    pub fn contains_key(&self, key: &K) -> (r: bool)
        ensures
            r == self@.contains_key(key.deep_view()),
    {
        self.position(key).is_some()
    }

    /// The value of `key`, if it has one.
    pub fn get(&self, key: &K) -> (r: Option<&V>)
        ensures
            match r {
                Some(v) => self@.contains_key(key.deep_view()) && self@[key.deep_view()]
                    == v.deep_view(),
                None => !self@.contains_key(key.deep_view()),
            },
    {
        match self.position(key) {
            Some(i) => Some(&self.entries[i].1),
            None => None,
        }
    }

    /// Gives `key` the value `value`, replacing any value it had.
    pub fn insert(&mut self, key: K, value: V)
        ensures
            final(self)@ == old(self)@.insert(key.deep_view(), value.deep_view()),
    {
        let ghost before = self.entries.deep_view();
        match self.position(&key) {
            Some(i) => {
                self.entries[i] = (key, value);
                proof {
                    lemma_entries_map_update(before, i as int, value.deep_view());
                    assert(self.entries.deep_view() =~= before.update(
                        i as int,
                        (before[i as int].0, value.deep_view()),
                    ));
                }
            },
            None => {
                self.entries.push((key, value));
                proof {
                    lemma_entries_map_push(before, key.deep_view(), value.deep_view());
                    assert(self.entries.deep_view() =~= before.push(
                        (key.deep_view(), value.deep_view()),
                    ));
                }
            },
        }
    }
}

} // verus!
