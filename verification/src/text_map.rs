//! A small map from text to text, kept as a list in which no key occurs twice.

use vstd::prelude::*;

verus! {

/// One entry of a map.
#[derive(Clone, Debug)]
pub struct KeyValue {
    pub key: String,
    pub value: String,
}

/// A map from text to text.
#[derive(Clone, Debug)]
pub struct TextMap {
    pub entries: Vec<KeyValue>,
}

/// The position of the first entry at or after `i` whose key is `key`, or the
/// length where there is none.
pub open spec fn position_from(entries: Seq<KeyValue>, key: Seq<char>, i: int) -> int
    decreases entries.len() - i,
{
    if i < 0 || i >= entries.len() {
        entries.len() as int
    } else if entries[i].key@ == key {
        i
    } else {
        position_from(entries, key, i + 1)
    }
}

/// The position found lies between `i` and the length, holds `key` where
/// it is short of the length, and nothing before it does.
pub proof fn lemma_position_from(entries: Seq<KeyValue>, key: Seq<char>, i: int)
    requires
        0 <= i <= entries.len(),
    ensures
        i <= position_from(entries, key, i) <= entries.len(),
        position_from(entries, key, i) < entries.len() ==> entries[position_from(
            entries,
            key,
            i,
        )].key@ == key,
        forall|k: int| i <= k < position_from(entries, key, i) ==> entries[k].key@ != key,
    decreases entries.len() - i,
{
    if i < entries.len() && entries[i].key@ != key {
        lemma_position_from(entries, key, i + 1);
    }
}

impl TextMap {
    /// No key occurs twice.
    pub open spec fn wf(&self) -> bool {
        forall|i: int, j: int|
            0 <= i < j < self.entries@.len() ==> self.entries@[i].key@ != self.entries@[j].key@
    }

    /// The value stored under `key`, if any.
    pub open spec fn lookup(&self, key: Seq<char>) -> Option<Seq<char>> {
        let p = position_from(self.entries@, key, 0);
        if p < self.entries@.len() {
            Some(self.entries@[p].value@)
        } else {
            None
        }
    }

    /// The map as a mathematical map.
    pub open spec fn as_map(&self) -> Map<Seq<char>, Seq<char>> {
        Map::new(|key: Seq<char>| self.lookup(key) is Some, |key: Seq<char>| self.lookup(key)->0)
    }

    pub fn new() -> (m: TextMap)
        ensures
            m.entries@.len() == 0,
            m.wf(),
            forall|key: Seq<char>| m.lookup(key) is None,
            m.as_map() == Map::<Seq<char>, Seq<char>>::empty(),
    {
        let m = TextMap { entries: Vec::new() };
        assert(m.as_map() =~= Map::<Seq<char>, Seq<char>>::empty());
        m
    }

    fn position(&self, key: &str) -> (p: usize)
        ensures
            p == position_from(self.entries@, key@, 0),
            p <= self.entries@.len(),
    {
        let mut i: usize = 0;
        while i < self.entries.len()
            invariant
                i <= self.entries@.len(),
                position_from(self.entries@, key@, 0) == position_from(
                    self.entries@,
                    key@,
                    i as int,
                ),
            decreases self.entries@.len() - i,
        {
            if crate::text::same_text(self.entries[i].key.as_str(), key) {
                return i;
            }
            i += 1;
        }
        i
    }

    /// The value stored under `key`, if any.
    pub fn get(&self, key: &str) -> (r: Option<&String>)
        ensures
            match r {
                Some(v) => self.lookup(key@) == Some(v@),
                None => self.lookup(key@) is None,
            },
    {
        let p = self.position(key);
        if p < self.entries.len() {
            Some(&self.entries[p].value)
        } else {
            None
        }
    }

    /// Stores `value` under `key`, in place of what was stored there before.
    pub fn insert(&mut self, key: String, value: String)
        requires
            old(self).wf(),
        ensures
            final(self).wf(),
            final(self).lookup(key@) == Some(value@),
            forall|other: Seq<char>|
                other != key@ ==> final(self).lookup(other) == old(self).lookup(other),
            final(self).as_map() == old(self).as_map().insert(key@, value@),
    {
        let p = self.position(key.as_str());
        let ghost before = self.entries@;
        let ghost k = key@;
        proof {
            lemma_position_from(before, k, 0);
        }
        if p < self.entries.len() {
            let replaced = KeyValue { key, value };
            self.entries[p] = replaced;
        } else {
            self.entries.push(KeyValue { key, value });
        }
        proof {
            let after = self.entries@;
            lemma_position_from(after, k, 0);
            assert(after[p as int].key@ == k);
            assert forall|other: Seq<char>| other != k implies self.lookup(other)
                == old(self).lookup(other) by {
                lemma_position_from(before, other, 0);
                lemma_position_from(after, other, 0);
                let pb = position_from(before, other, 0);
                let pa = position_from(after, other, 0);
                if pb < before.len() {
                    assert(after[pb].key@ == other);
                }
                if pa < after.len() {
                    assert(pa < before.len());
                    assert(before[pa].key@ == other);
                }
            }
            assert(self.as_map() =~= old(self).as_map().insert(k, value@));
        }
    }
}

} // verus!
