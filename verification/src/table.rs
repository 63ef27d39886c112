//! A map from names to values, kept as a list of entries in the order in
//! which the names were first bound.

use crate::text::same_text;
use vstd::prelude::*;

verus! {

/// A name and what is bound to it.
#[derive(Debug)]
pub struct Entry<T> {
    pub name: String,
    pub value: T,
}

/// A map from names to values. Where a name occurs more than once among the
/// entries, its first entry counts.
#[derive(Debug)]
pub struct Table<T> {
    pub entries: Vec<Entry<T>>,
}

/// Whether `i` is the first entry that binds `key`.
pub open spec fn is_first<T>(entries: Seq<Entry<T>>, key: Seq<char>, i: int) -> bool {
    &&& 0 <= i < entries.len()
    &&& entries[i].name@ == key
    &&& forall|j: int| 0 <= j < i ==> (#[trigger] entries[j]).name@ != key
}

/// Whether some entry binds `key`.
pub open spec fn binds<T>(entries: Seq<Entry<T>>, key: Seq<char>) -> bool {
    exists|i: int| is_first(entries, key, i)
}

/// The first entry that binds `key`.
pub open spec fn first<T>(entries: Seq<Entry<T>>, key: Seq<char>) -> int {
    choose|i: int| is_first(entries, key, i)
}

/// The map that a list of entries stands for.
pub open spec fn as_map<T>(entries: Seq<Entry<T>>) -> Map<Seq<char>, T> {
    Map::new(|key: Seq<char>| binds(entries, key), |key: Seq<char>| entries[first(entries, key)].value)
}

impl<T> View for Table<T> {
    type V = Map<Seq<char>, T>;

    open spec fn view(&self) -> Map<Seq<char>, T> {
        as_map(self.entries@)
    }
}

/// A name has at most one first entry.
pub proof fn lemma_first_is<T>(entries: Seq<Entry<T>>, key: Seq<char>, i: int)
    requires
        is_first(entries, key, i),
    ensures
        binds(entries, key),
        first(entries, key) == i,
        as_map(entries).contains_key(key),
        as_map(entries)[key] == entries[i].value,
{
    let f = first(entries, key);
    assert(is_first(entries, key, f));
    if f < i {
        assert(entries[f].name@ != key);
    } else if i < f {
        assert(entries[i].name@ != key);
    }
}

/// A name that no entry holds is not bound.
pub proof fn lemma_absent<T>(entries: Seq<Entry<T>>, key: Seq<char>)
    requires
        forall|j: int| 0 <= j < entries.len() ==> (#[trigger] entries[j]).name@ != key,
    ensures
        !binds(entries, key),
        !as_map(entries).contains_key(key),
{
    if binds(entries, key) {
        let f = first(entries, key);
        assert(is_first(entries, key, f));
        assert(entries[f].name@ != key);
    }
}

/// Replacing the value of a name's first entry rebinds the name and nothing
/// else.
pub proof fn lemma_replace<T>(entries: Seq<Entry<T>>, after: Seq<Entry<T>>, key: Seq<char>, i: int)
    requires
        is_first(entries, key, i),
        after.len() == entries.len(),
        forall|j: int| 0 <= j < entries.len() ==> (#[trigger] after[j]).name@ == entries[j].name@,
        forall|j: int| 0 <= j < entries.len() && j != i ==> (#[trigger] after[j]).value == entries[j].value,
    ensures
        as_map(after) == as_map(entries).insert(key, after[i].value),
{
    let before_map = as_map(entries);
    let after_map = as_map(after);
    assert forall|k: Seq<char>, j: int| is_first(entries, k, j) == is_first(after, k, j) by {
        if is_first(entries, k, j) {
            assert(after[j].name@ == entries[j].name@);
            assert forall|m: int| 0 <= m < j implies (#[trigger] after[m]).name@ != k by {
                assert(entries[m].name@ != k);
            }
        }
        if is_first(after, k, j) {
            assert(after[j].name@ == entries[j].name@);
            assert forall|m: int| 0 <= m < j implies (#[trigger] entries[m]).name@ != k by {
                assert(after[m].name@ != k);
            }
        }
    }
    assert forall|k: Seq<char>| after_map.contains_key(k) == before_map.insert(
        key,
        after[i].value,
    ).contains_key(k) by {
        if binds(entries, k) {
            let f = first(entries, k);
            assert(is_first(after, k, f));
        }
        if binds(after, k) {
            let f = first(after, k);
            assert(is_first(entries, k, f));
        }
        assert(is_first(after, key, i));
    }
    assert forall|k: Seq<char>| after_map.contains_key(k) implies after_map[k] == before_map.insert(
        key,
        after[i].value,
    )[k] by {
        let f = first(after, k);
        assert(is_first(after, k, f));
        assert(is_first(entries, k, f));
        lemma_first_is(entries, k, f);
        if k == key {
            lemma_first_is(after, key, i);
        } else {
            assert(f != i);
        }
    }
    assert(after_map =~= before_map.insert(key, after[i].value));
}

/// Appending an entry for a name that is not bound binds the name and
/// nothing else.
pub proof fn lemma_append<T>(entries: Seq<Entry<T>>, entry: Entry<T>)
    requires
        !binds(entries, entry.name@),
    ensures
        as_map(entries.push(entry)) == as_map(entries).insert(entry.name@, entry.value),
{
    let after = entries.push(entry);
    let key = entry.name@;
    let before_map = as_map(entries);
    let after_map = as_map(after);
    assert forall|j: int| 0 <= j < entries.len() implies (#[trigger] entries[j]).name@ != key by {
        if entries[j].name@ == key {
            lemma_has_first(entries, key, j);
        }
    }
    assert(is_first(after, key, entries.len() as int)) by {
        assert forall|m: int| 0 <= m < entries.len() implies (#[trigger] after[m]).name@ != key by {
            assert(entries[m].name@ != key);
        }
    }
    lemma_first_is(after, key, entries.len() as int);
    assert forall|k: Seq<char>, j: int| k != key implies is_first(entries, k, j) == is_first(
        after,
        k,
        j,
    ) by {
        if is_first(entries, k, j) {
            assert(after[j] == entries[j]);
            assert forall|m: int| 0 <= m < j implies (#[trigger] after[m]).name@ != k by {
                assert(entries[m].name@ != k);
            }
        }
        if is_first(after, k, j) {
            assert(j < entries.len());
            assert(after[j] == entries[j]);
            assert forall|m: int| 0 <= m < j implies (#[trigger] entries[m]).name@ != k by {
                assert(after[m].name@ != k);
            }
        }
    }
    assert forall|k: Seq<char>| after_map.contains_key(k) == before_map.insert(
        key,
        entry.value,
    ).contains_key(k) by {
        if k != key {
            if binds(entries, k) {
                let f = first(entries, k);
                assert(is_first(after, k, f));
            }
            if binds(after, k) {
                let f = first(after, k);
                assert(is_first(entries, k, f));
            }
        }
    }
    assert forall|k: Seq<char>| after_map.contains_key(k) implies after_map[k] == before_map.insert(
        key,
        entry.value,
    )[k] by {
        if k != key {
            let f = first(after, k);
            assert(is_first(after, k, f));
            assert(is_first(entries, k, f));
            lemma_first_is(entries, k, f);
        }
    }
    assert(after_map =~= before_map.insert(key, entry.value));
}

/// A name that some entry holds has a first entry.
pub proof fn lemma_has_first<T>(entries: Seq<Entry<T>>, key: Seq<char>, i: int)
    requires
        0 <= i < entries.len(),
        entries[i].name@ == key,
    ensures
        binds(entries, key),
        first(entries, key) <= i,
    decreases i,
{
    if forall|j: int| 0 <= j < i ==> (#[trigger] entries[j]).name@ != key {
        assert(is_first(entries, key, i));
        lemma_first_is(entries, key, i);
    } else {
        let j = choose|j: int| 0 <= j < i && (#[trigger] entries[j]).name@ == key;
        lemma_has_first(entries, key, j);
    }
}

impl<T> Table<T> {
    /// A table that binds nothing.
    pub fn new() -> (r: Table<T>)
        ensures
            r@ == Map::<Seq<char>, T>::empty(),
    {
        let r = Table { entries: Vec::new() };
        proof {
            assert forall|k: Seq<char>| !binds(r.entries@, k) by {
                lemma_absent(r.entries@, k);
            }
            assert(r@ =~= Map::<Seq<char>, T>::empty());
        }
        r
    }

    /// The place of the entry that binds a name, if one does.
    pub fn find(&self, name: &str) -> (r: Option<usize>)
        ensures
            match r {
                Some(i) => is_first(self.entries@, name@, i as int) && self@.contains_key(name@)
                    && self@[name@] == self.entries@[i as int].value,
                None => !self@.contains_key(name@),
            },
    {
        let mut i: usize = 0;
        while i < self.entries.len()
            invariant
                i <= self.entries@.len(),
                forall|j: int| 0 <= j < i ==> (#[trigger] self.entries@[j]).name@ != name@,
            decreases self.entries.len() - i,
        {
            if same_text(self.entries[i].name.as_str(), name) {
                proof {
                    lemma_first_is(self.entries@, name@, i as int);
                }
                return Some(i);
            }
            i += 1;
        }
        proof {
            lemma_absent(self.entries@, name@);
        }
        None
    }

    /// Whether the table binds a name.
    pub fn contains(&self, name: &str) -> (r: bool)
        ensures
            r == self@.contains_key(name@),
    {
        self.find(name).is_some()
    }

    /// Binds a name, in place of what it was bound to.
    pub fn insert(&mut self, name: String, value: T)
        ensures
            final(self)@ == old(self)@.insert(name@, value),
    {
        match self.find(name.as_str()) {
            Some(i) => {
                self.entries[i].value = value;
                proof {
                    lemma_replace(old(self).entries@, self.entries@, name@, i as int);
                }
            },
            None => {
                let ghost entry = Entry { name, value };
                self.entries.push(Entry { name, value });
                proof {
                    lemma_append(old(self).entries@, entry);
                }
            },
        }
    }
}

} // verus!
