//! A small map from names to values.

use vstd::prelude::*;
use crate::text::same_text;

verus! {

/// A map from names to values, kept as a list of entries. Where a name stands
/// twice, the later entry counts.
pub struct NameMap<V> {
    entries: Vec<(String, V)>,
}

pub closed spec fn entries_map<V>(entries: Seq<(String, V)>) -> Map<Seq<char>, V>
    decreases entries.len(),
{
    if entries.len() == 0 {
        Map::empty()
    } else {
        entries_map(entries.drop_last()).insert(entries.last().0@, entries.last().1)
    }
}

impl<V> View for NameMap<V> {
    type V = Map<Seq<char>, V>;

    closed spec fn view(&self) -> Map<Seq<char>, V> {
        entries_map(self.entries@)
    }
}

proof fn lemma_entries_push<V>(entries: Seq<(String, V)>, entry: (String, V))
    ensures
        entries_map(entries.push(entry)) == entries_map(entries).insert(entry.0@, entry.1),
{
    assert(entries.push(entry).drop_last() =~= entries);
}

proof fn lemma_entries_absent<V>(entries: Seq<(String, V)>, key: Seq<char>)
    requires
        forall|k: int| 0 <= k < entries.len() ==> (#[trigger] entries[k]).0@ != key,
    ensures
        !entries_map(entries).dom().contains(key),
    decreases entries.len(),
{
    if entries.len() > 0 {
        let head = entries.drop_last();
        assert forall|k: int| 0 <= k < head.len() implies (#[trigger] head[k]).0@ != key by {
            assert(head[k] == entries[k]);
        }
        lemma_entries_absent(head, key);
        assert(entries[entries.len() - 1].0@ != key);
    }
}

proof fn lemma_entries_remove<V>(entries: Seq<(String, V)>, i: int, key: Seq<char>)
    requires
        0 <= i < entries.len(),
        entries[i].0@ == key,
    ensures
        entries_map(entries.remove(i)).remove(key) == entries_map(entries).remove(key),
    decreases entries.len(),
{
    let head = entries.drop_last();
    if i == entries.len() - 1 {
        assert(entries.remove(i) =~= head);
        assert(entries_map(head).insert(key, entries.last().1).remove(key) =~= entries_map(
            head,
        ).remove(key));
    } else {
        lemma_entries_remove(head, i, key);
        assert(entries.remove(i).drop_last() =~= head.remove(i));
        let a = entries_map(head.remove(i));
        let b = entries_map(head);
        let k = entries.last().0@;
        let v = entries.last().1;
        assert(entries_map(entries.remove(i)) == a.insert(k, v));
        assert(entries_map(entries) == b.insert(k, v));
        if k == key {
            assert(a.insert(k, v).remove(key) =~= a.remove(key));
            assert(b.insert(k, v).remove(key) =~= b.remove(key));
        } else {
            assert(a.insert(k, v).remove(key) =~= a.remove(key).insert(k, v));
            assert(b.insert(k, v).remove(key) =~= b.remove(key).insert(k, v));
        }
    }
}

impl<V> NameMap<V> {
    pub fn new() -> (result: Self)
        ensures
            result@ == Map::<Seq<char>, V>::empty(),
    {
        NameMap { entries: Vec::new() }
    }

    fn position(&self, key: &str) -> (result: Option<usize>)
        ensures
            match result {
                Some(i) => {
                    &&& i < self.entries.len()
                    &&& self@.dom().contains(key@)
                    &&& self@[key@] == self.entries@[i as int].1
                },
                None => !self@.dom().contains(key@),
            },
    {
        let mut n: usize = self.entries.len();
        assert(self.entries@.take(n as int) =~= self.entries@);
        while n > 0
            invariant
                n <= self.entries.len(),
                self@ == entries_map(self.entries@),
                self@.dom().contains(key@) == entries_map(
                    self.entries@.take(n as int),
                ).dom().contains(key@),
                self@.dom().contains(key@) ==> self@[key@] == entries_map(
                    self.entries@.take(n as int),
                )[key@],
            decreases n,
        {
            let ghost head = self.entries@.take(n as int);
            assert(head.drop_last() =~= self.entries@.take(n - 1));
            if same_text(self.entries[n - 1].0.as_str(), key) {
                return Some(n - 1);
            }
            n -= 1;
        }
        None
    }

    pub fn get(&self, key: &str) -> (result: Option<&V>)
        ensures
            match result {
                Some(value) => self@.dom().contains(key@) && *value == self@[key@],
                None => !self@.dom().contains(key@),
            },
    {
        match self.position(key) {
            Some(i) => Some(&self.entries[i].1),
            None => None,
        }
    }

    pub fn has(&self, key: &str) -> (result: bool)
        ensures
            result == self@.dom().contains(key@),
    {
        self.position(key).is_some()
    }

    pub fn remove(&mut self, key: &str)
        ensures
            final(self)@ == old(self)@.remove(key@),
    {
        let mut i: usize = 0;
        while i < self.entries.len()
            invariant
                i <= self.entries.len(),
                entries_map(self.entries@).remove(key@) == old(self)@.remove(key@),
                forall|k: int| 0 <= k < i ==> (#[trigger] self.entries@[k]).0@ != key@,
            decreases self.entries.len() - i,
        {
            if same_text(self.entries[i].0.as_str(), key) {
                proof {
                    lemma_entries_remove(self.entries@, i as int, key@);
                }
                self.entries.remove(i);
            } else {
                i += 1;
            }
        }
        proof {
            lemma_entries_absent(self.entries@, key@);
            assert(entries_map(self.entries@).remove(key@) =~= entries_map(self.entries@));
        }
    }

    pub fn insert(&mut self, key: &str, value: V)
        ensures
            final(self)@ == old(self)@.insert(key@, value),
    {
        self.remove(key);
        let ghost before = self.entries@;
        self.entries.push((key.to_owned(), value));
        proof {
            lemma_entries_push(before, self.entries@.last());
            assert(old(self)@.remove(key@).insert(key@, value) =~= old(self)@.insert(key@, value));
        }
    }
}

} // verus!
