//! The annotations of an object: a finite map from keys to values, kept as a
//! list in which no key occurs twice.

use vstd::prelude::*;

verus! {

/// One annotation.
#[derive(Debug, Clone)]
pub struct Annotation {
    pub key: String,
    pub value: String,
}

/// The map that a list of annotations stands for. Where a key occurs more
/// than once, its last entry counts.
pub open spec fn entries_map(entries: Seq<Annotation>) -> Map<Seq<char>, Seq<char>>
    decreases entries.len(),
{
    if entries.len() == 0 {
        Map::empty()
    } else {
        entries_map(entries.drop_last()).insert(entries.last().key@, entries.last().value@)
    }
}

/// No key occurs twice.
pub open spec fn distinct_keys(entries: Seq<Annotation>) -> bool {
    forall|i: int, j: int|
        0 <= i < j < entries.len() ==> (#[trigger] entries[i]).key@ != (#[trigger] entries[j]).key@
}

/// A key is in the map exactly when some entry carries it.
pub proof fn lemma_entries_map_dom(entries: Seq<Annotation>, key: Seq<char>)
    ensures
        entries_map(entries).dom().contains(key) <==> exists|i: int|
            0 <= i < entries.len() && (#[trigger] entries[i]).key@ == key,
    decreases entries.len(),
{
    if entries.len() > 0 {
        let front = entries.drop_last();
        lemma_entries_map_dom(front, key);
        if entries.last().key@ == key {
            assert(entries[entries.len() - 1].key@ == key);
        } else if entries_map(front).dom().contains(key) {
            let i = choose|i: int| 0 <= i < front.len() && (#[trigger] front[i]).key@ == key;
            assert(entries[i].key@ == key);
        } else {
            assert forall|i: int| 0 <= i < entries.len() implies (#[trigger] entries[i]).key@
                != key by {
                if i < front.len() {
                    assert(front[i].key@ != key);
                }
            }
        }
    }
}

/// With distinct keys, each entry's value is what the map holds for its key.
pub proof fn lemma_entries_map_value(entries: Seq<Annotation>, i: int)
    requires
        distinct_keys(entries),
        0 <= i < entries.len(),
    ensures
        entries_map(entries).dom().contains(entries[i].key@),
        entries_map(entries)[entries[i].key@] == entries[i].value@,
    decreases entries.len(),
{
    let front = entries.drop_last();
    if i < entries.len() - 1 {
        assert(forall|a: int| 0 <= a < front.len() ==> front[a] == entries[a]);
        assert(distinct_keys(front));
        lemma_entries_map_value(front, i);
        assert(front[i] == entries[i]);
        assert(entries[i].key@ != entries[entries.len() - 1].key@);
    }
}

/// Appending an entry writes its value under its key.
pub proof fn lemma_entries_map_push(entries: Seq<Annotation>, entry: Annotation)
    ensures
        entries_map(entries.push(entry)) == entries_map(entries).insert(entry.key@, entry.value@),
{
    assert(entries.push(entry).drop_last() == entries);
}

/// With distinct keys, replacing an entry by one of the same key writes the
/// new value under that key and leaves every other key as it was.
pub proof fn lemma_entries_map_update(entries: Seq<Annotation>, i: int, entry: Annotation)
    requires
        distinct_keys(entries),
        0 <= i < entries.len(),
        entry.key@ == entries[i].key@,
    ensures
        distinct_keys(entries.update(i, entry)),
        entries_map(entries.update(i, entry)) == entries_map(entries).insert(
            entry.key@,
            entry.value@,
        ),
    decreases entries.len(),
{
    let updated = entries.update(i, entry);
    let front = entries.drop_last();
    let last = entries.last();
    assert forall|a: int, b: int| 0 <= a < b < updated.len() implies (#[trigger] updated[a]).key@
        != (#[trigger] updated[b]).key@ by {
        assert(entries[a].key@ != entries[b].key@);
    }
    if i == entries.len() - 1 {
        assert(updated.drop_last() == front);
        assert(entries_map(front).insert(last.key@, last.value@).insert(entry.key@, entry.value@)
            == entries_map(front).insert(entry.key@, entry.value@));
    } else {
        assert(forall|a: int| 0 <= a < front.len() ==> front[a] == entries[a]);
        assert(distinct_keys(front));
        lemma_entries_map_update(front, i, entry);
        assert(updated.drop_last() == front.update(i, entry));
        assert(updated.last() == last);
        assert(entries[i].key@ != entries[entries.len() - 1].key@);
        assert(entries_map(front).insert(entry.key@, entry.value@).insert(last.key@, last.value@)
            == entries_map(front).insert(last.key@, last.value@).insert(
            entry.key@,
            entry.value@,
        ));
    }
}

/// A finite map from annotation keys to values.
#[derive(Debug)]
pub struct Annotations {
    entries: Vec<Annotation>,
}

impl View for Annotations {
    type V = Map<Seq<char>, Seq<char>>;

    closed spec fn view(&self) -> Map<Seq<char>, Seq<char>> {
        entries_map(self.entries@)
    }
}

impl Clone for Annotations {
    fn clone(&self) -> (r: Annotations)
        ensures
            r@ == self@,
    {
        proof {
            use_type_invariant(self);
        }
        let mut entries: Vec<Annotation> = Vec::new();
        let mut i: usize = 0;
        while i < self.entries.len()
            invariant
                i <= self.entries@.len(),
                entries@.len() == i,
                forall|j: int| 0 <= j < i ==> entries@[j] == self.entries@[j],
            decreases self.entries@.len() - i,
        {
            let entry = Annotation {
                key: self.entries[i].key.clone(),
                value: self.entries[i].value.clone(),
            };
            entries.push(entry);
            i += 1;
        }
        assert(entries@ == self.entries@);
        Annotations { entries }
    }
}

impl Annotations {
    #[verifier::type_invariant]
    spec fn well_formed(self) -> bool {
        distinct_keys(self.entries@)
    }

    /// The empty map.
    pub fn new() -> (r: Annotations)
        ensures
            r@ == Map::<Seq<char>, Seq<char>>::empty(),
    {
        Annotations { entries: Vec::new() }
    }

    /// The index of the entry that carries `key`, or the number of entries
    /// where none does.
    fn find(&self, key: &String) -> (i: usize)
        ensures
            i <= self.entries@.len(),
            i < self.entries@.len() ==> self.entries@[i as int].key@ == key@,
            i == self.entries@.len() ==> !self@.dom().contains(key@),
    {
        let mut i: usize = 0;
        while i < self.entries.len()
            invariant
                i <= self.entries@.len(),
                forall|j: int| 0 <= j < i ==> (#[trigger] self.entries@[j]).key@ != key@,
            decreases self.entries@.len() - i,
        {
            if self.entries[i].key == *key {
                return i;
            }
            i += 1;
        }
        proof {
            lemma_entries_map_dom(self.entries@, key@);
        }
        i
    }

    /// Writes `value` under `key`, in place of what was there, if anything.
    pub fn insert(&mut self, key: String, value: String)
        ensures
            final(self)@ == old(self)@.insert(key@, value@),
    {
        proof {
            use_type_invariant(&*self);
        }
        let i = self.find(&key);
        let mut entries: Vec<Annotation> = Vec::new();
        std::mem::swap(&mut entries, &mut self.entries);
        let entry = Annotation { key, value };
        proof {
            if i < entries@.len() {
                lemma_entries_map_update(entries@, i as int, entry);
            } else {
                lemma_entries_map_push(entries@, entry);
                lemma_entries_map_dom(entries@, entry.key@);
                assert(distinct_keys(entries@.push(entry)));
            }
        }
        if i < entries.len() {
            entries[i] = entry;
        } else {
            entries.push(entry);
        }
        self.entries = entries;
    }

    /// The value under `key`, if there is one.
    pub fn get(&self, key: &str) -> (r: Option<String>)
        ensures
            r.deep_view() == (if self@.dom().contains(key@) {
                Some(self@[key@])
            } else {
                None
            }),
    {
        proof {
            use_type_invariant(self);
        }
        let key = key.to_owned();
        let i = self.find(&key);
        if i < self.entries.len() {
            proof {
                lemma_entries_map_value(self.entries@, i as int);
            }
            Some(self.entries[i].value.clone())
        } else {
            None
        }
    }

    /// The entries, each key once, in the order in which the keys came in.
    pub fn into_entries(self) -> (r: Vec<Annotation>)
        ensures
            distinct_keys(r@),
            entries_map(r@) == self@,
    {
        proof {
            use_type_invariant(&self);
        }
        self.entries
    }
}

} // verus!
