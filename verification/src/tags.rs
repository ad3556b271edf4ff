//! Metric tags: a mapping from tag keys to tag values with unique keys.

use vstd::prelude::*;

verus! {

/// A tag as contracts see it: the key's and the value's characters.
pub type Pair = (Seq<char>, Seq<char>);

/// No two entries have the same key.
pub open spec fn distinct_keys(entries: Seq<Pair>) -> bool {
    forall|i: int, j: int|
        0 <= i < entries.len() && 0 <= j < entries.len() && i != j ==> entries[i].0 != entries[j].0
}

/// Some entry has the key.
pub open spec fn has_key(entries: Seq<Pair>, key: Seq<char>) -> bool {
    exists|i: int| 0 <= i < entries.len() && entries[i].0 == key
}

/// The place of an entry with the key.
pub open spec fn key_index(entries: Seq<Pair>, key: Seq<char>) -> int {
    choose|i: int| 0 <= i < entries.len() && entries[i].0 == key
}

/// The mapping that a sequence of entries stands for. Where a key occurs more
/// than once, the last entry with it decides.
pub open spec fn pairs_map(entries: Seq<Pair>) -> Map<Seq<char>, Seq<char>>
    decreases entries.len(),
{
    if entries.len() == 0 {
        Map::empty()
    } else {
        pairs_map(entries.drop_last()).insert(entries.last().0, entries.last().1)
    }
}

/// The entries after a key has been given a value: an entry with the key keeps
/// its place and takes the value, a new key goes to the end.
pub open spec fn put(entries: Seq<Pair>, key: Seq<char>, value: Seq<char>) -> Seq<Pair> {
    if has_key(entries, key) {
        entries.update(key_index(entries, key), (key, value))
    } else {
        entries.push((key, value))
    }
}

/// A key is in the mapping exactly if some entry has it.
pub proof fn lemma_pairs_map_dom(entries: Seq<Pair>, key: Seq<char>)
    ensures
        pairs_map(entries).dom().finite(),
        pairs_map(entries).contains_key(key) <==> has_key(entries, key),
    decreases entries.len(),
{
    if entries.len() > 0 {
        let front = entries.drop_last();
        lemma_pairs_map_dom(front, key);
        if has_key(front, key) {
            let i = key_index(front, key);
            assert(entries[i].0 == key);
        }
        if has_key(entries, key) && entries.last().0 != key {
            let i = key_index(entries, key);
            assert(front[i].0 == key);
        }
        if entries.last().0 == key {
            assert(entries[entries.len() - 1].0 == key);
        }
    }
}

/// Where the keys are distinct, they still are without the last entry.
pub proof fn lemma_distinct_front(entries: Seq<Pair>)
    requires
        distinct_keys(entries),
        entries.len() > 0,
    ensures
        distinct_keys(entries.drop_last()),
{
    let front = entries.drop_last();
    assert forall|a: int, b: int|
        0 <= a < front.len() && 0 <= b < front.len() && a != b implies front[a].0
        != front[b].0 by {
        assert(entries[a].0 != entries[b].0);
    }
}

/// Where the keys are distinct, the mapping gives each entry's key that entry's value.
pub proof fn lemma_pairs_map_value(entries: Seq<Pair>, i: int)
    requires
        distinct_keys(entries),
        0 <= i < entries.len(),
    ensures
        pairs_map(entries).contains_key(entries[i].0),
        pairs_map(entries)[entries[i].0] == entries[i].1,
    decreases entries.len(),
{
    let front = entries.drop_last();
    if i < entries.len() - 1 {
        lemma_distinct_front(entries);
        lemma_pairs_map_value(front, i);
        assert(front[i] == entries[i]);
        assert(entries[i].0 != entries[entries.len() - 1].0);
    }
}

/// Where the keys are distinct, the mapping has as many keys as there are entries.
pub proof fn lemma_pairs_map_len(entries: Seq<Pair>)
    requires
        distinct_keys(entries),
    ensures
        pairs_map(entries).dom().finite(),
        pairs_map(entries).dom().len() == entries.len(),
    decreases entries.len(),
{
    if entries.len() > 0 {
        let front = entries.drop_last();
        let last = entries.last();
        lemma_distinct_front(entries);
        lemma_pairs_map_len(front);
        lemma_pairs_map_dom(front, last.0);
        if has_key(front, last.0) {
            let i = key_index(front, last.0);
            assert(entries[i].0 == entries[entries.len() - 1].0);
        }
        assert(pairs_map(entries).dom() == pairs_map(front).dom().insert(last.0));
    }
}

/// Giving a key a value keeps the keys distinct, and changes the mapping as an
/// insertion does: the key has the new value, every other key is as it was.
pub proof fn lemma_put(entries: Seq<Pair>, key: Seq<char>, value: Seq<char>)
    requires
        distinct_keys(entries),
    ensures
        distinct_keys(put(entries, key, value)),
        pairs_map(put(entries, key, value)) == pairs_map(entries).insert(key, value),
{
    let after = put(entries, key, value);
    if has_key(entries, key) {
        let at = key_index(entries, key);
        assert forall|i: int, j: int|
            0 <= i < after.len() && 0 <= j < after.len() && i != j implies after[i].0
            != after[j].0 by {
            assert(after[i].0 == entries[i].0);
            assert(after[j].0 == entries[j].0);
        }
        assert forall|k: Seq<char>|
            pairs_map(after).contains_key(k) <==> pairs_map(entries).insert(
                key,
                value,
            ).contains_key(k) by {
            lemma_pairs_map_dom(after, k);
            lemma_pairs_map_dom(entries, k);
            if has_key(after, k) {
                let i = key_index(after, k);
                assert(entries[i].0 == k);
            }
            if has_key(entries, k) {
                let i = key_index(entries, k);
                assert(after[i].0 == k);
            }
        }
        assert forall|k: Seq<char>| pairs_map(after).contains_key(k) implies pairs_map(after)[k]
            == pairs_map(entries).insert(key, value)[k] by {
            lemma_pairs_map_dom(after, k);
            let i = key_index(after, k);
            lemma_pairs_map_value(after, i);
            if i != at {
                assert(entries[i] == after[i]);
                lemma_pairs_map_value(entries, i);
            }
        }
        assert(pairs_map(after) =~= pairs_map(entries).insert(key, value));
    } else {
        assert(after.drop_last() == entries);
        assert forall|i: int, j: int|
            0 <= i < after.len() && 0 <= j < after.len() && i != j implies after[i].0
            != after[j].0 by {
            if i < entries.len() {
                assert(entries[i].0 == after[i].0);
            }
            if j < entries.len() {
                assert(entries[j].0 == after[j].0);
            }
        }
    }
}

/// Metric tags. Each key occurs once; the tags keep the order in which their
/// keys were first inserted.
#[derive(Debug)]
pub struct Tags {
    entries: Vec<(String, String)>,
}

impl View for Tags {
    type V = Map<Seq<char>, Seq<char>>;

    /// The tags as a mapping from key to value.
    open spec fn view(&self) -> Map<Seq<char>, Seq<char>> {
        pairs_map(self.entries())
    }
}

impl Tags {
    /// The tags in order, each as the pair of its key and its value.
    pub closed spec fn entries(&self) -> Seq<Pair> {
        self.entries@.map_values(|e: (String, String)| (e.0@, e.1@))
    }

    /// The keys are distinct. This holds of every value of the type.
    #[verifier::type_invariant]
    pub open spec fn well_formed(&self) -> bool {
        distinct_keys(self.entries())
    }

    /// Creates empty tags.
    pub fn new() -> (tags: Tags)
        ensures
            tags.entries() == Seq::<Pair>::empty(),
            tags@ == Map::<Seq<char>, Seq<char>>::empty(),
            tags.well_formed(),
    {
        let tags = Tags { entries: Vec::new() };
        assert(tags.entries() == Seq::<Pair>::empty());
        tags
    }

    /// The number of tags.
    pub fn len(&self) -> (n: usize)
        ensures
            n == self.entries().len(),
            n == self@.dom().len(),
            self.well_formed(),
    {
        proof {
            use_type_invariant(self);
            lemma_pairs_map_len(self.entries());
        }
        self.entries.len()
    }

    /// Whether there is no tag.
    pub fn is_empty(&self) -> (b: bool)
        ensures
            b == (self.entries().len() == 0),
            b == (self@ == Map::<Seq<char>, Seq<char>>::empty()),
    {
        proof {
            use_type_invariant(self);
            lemma_pairs_map_len(self.entries());
            if self.entries().len() == 0 {
                assert(self@ =~= Map::<Seq<char>, Seq<char>>::empty());
            }
        }
        self.entries.len() == 0
    }

    /// The place of the entry with the key, if there is one.
    fn position(&self, key: &String) -> (r: Option<usize>)
        ensures
            match r {
                Some(i) => i < self.entries().len() && self.entries()[i as int].0 == key@,
                None => !has_key(self.entries(), key@),
            },
    {
        let mut i: usize = 0;
        while i < self.entries.len()
            invariant
                i <= self.entries.len(),
                forall|j: int| 0 <= j < i ==> self.entries()[j].0 != key@,
            decreases self.entries.len() - i,
        {
            if self.entries[i].0 == *key {
                return Some(i);
            }
            i = i + 1;
        }
        None
    }

    /// The value of a key, if the tags have it.
    pub fn get(&self, key: &str) -> (r: Option<&String>)
        ensures
            match r {
                Some(value) => self@.contains_key(key@) && value@ == self@[key@],
                None => !self@.contains_key(key@),
            },
    {
        let owned = key.to_owned();
        proof {
            use_type_invariant(self);
            lemma_pairs_map_dom(self.entries(), key@);
        }
        match self.position(&owned) {
            Some(i) => {
                proof {
                    lemma_pairs_map_value(self.entries(), i as int);
                }
                Some(&self.entries[i].1)
            },
            None => None,
        }
    }

    /// Whether the tags have the key.
    pub fn contains_key(&self, key: &str) -> (b: bool)
        ensures
            b == self@.contains_key(key@),
    {
        self.get(key).is_some()
    }

    /// The key and the value of the tag at a place in the order, none where the
    /// place is past the last tag.
    pub fn entry(&self, i: usize) -> (r: Option<(&String, &String)>)
        ensures
            match r {
                Some(tag) => i < self.entries().len() && (tag.0@, tag.1@) == self.entries()[i as int],
                None => i >= self.entries().len(),
            },
    {
        if i < self.entries.len() {
            Some((&self.entries[i].0, &self.entries[i].1))
        } else {
            None
        }
    }

    /// Gives a key a value. A key that the tags have keeps its place and takes the
    /// new value, and the value it had is returned; a new key goes to the end.
    pub fn insert(&mut self, key: String, value: String) -> (previous: Option<String>)
        ensures
            final(self).entries() == put(old(self).entries(), key@, value@),
            final(self)@ == old(self)@.insert(key@, value@),
            final(self).well_formed(),
            match previous {
                Some(v) => old(self)@.contains_key(key@) && v@ == old(self)@[key@],
                None => !old(self)@.contains_key(key@),
            },
    {
        proof {
            use_type_invariant(&*self);
            lemma_pairs_map_dom(self.entries(), key@);
            lemma_put(self.entries(), key@, value@);
        }
        let ghost before = self.entries();
        let found = self.position(&key);
        let mut taken = Tags { entries: Vec::new() };
        assert(taken.entries() == Seq::<Pair>::empty());
        std::mem::swap(self, &mut taken);
        let Tags { entries: mut entries } = taken;
        let previous = match found {
            Some(i) => {
                proof {
                    lemma_pairs_map_value(before, i as int);
                    lemma_pairs_map_value(before, key_index(before, key@));
                    assert(key_index(before, key@) == i);
                }
                let previous = entries[i].1.clone();
                entries.set(i, (key, value));
                Some(previous)
            },
            None => {
                entries.push((key, value));
                None
            },
        };
        assert(entries@.map_values(|e: (String, String)| (e.0@, e.1@)) == put(
            before,
            key@,
            value@,
        ));
        *self = Tags { entries };
        previous
    }
}

} // verus!
