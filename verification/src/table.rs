//! A table of ledger entries under text keys.

use crate::text::Text;
use vstd::prelude::*;

verus! {

/// The entries that are stored under one family of keys.
#[derive(Debug)]
pub struct Table<V> {
    entries: Vec<(Text, V)>,
}

/// Whether `i` is the position of the first entry of `entries` under `key`.
spec fn is_first<V>(entries: Seq<(Text, V)>, key: Seq<u8>, i: int) -> bool {
    &&& 0 <= i < entries.len()
    &&& entries[i].0@ == key
    &&& forall|j: int| 0 <= j < i ==> (#[trigger] entries[j]).0@ != key
}

/// The position of the first entry of `entries` under `key`, if there is one.
spec fn first<V>(entries: Seq<(Text, V)>, key: Seq<u8>) -> int {
    choose|i: int| is_first(entries, key, i)
}

/// Whether some entry of `entries` is under `key`.
spec fn occurs<V>(entries: Seq<(Text, V)>, key: Seq<u8>) -> bool {
    exists|i: int| is_first(entries, key, i)
}

impl<V: DeepView> View for Table<V> {
    type V = Map<Seq<u8>, V::V>;

    closed spec fn view(&self) -> Map<Seq<u8>, V::V> {
        Map::new(
            |key: Seq<u8>| occurs(self.entries@, key),
            |key: Seq<u8>| self.entries@[first(self.entries@, key)].1.deep_view(),
        )
    }
}

impl<V: DeepView> Table<V> {
    /// The table without entries.
    pub fn new() -> (table: Self)
        ensures
            table@ == Map::<Seq<u8>, V::V>::empty(),
    {
        let table = Table { entries: Vec::new() };
        assert(table@ =~= Map::<Seq<u8>, V::V>::empty());
        table
    }

    /// Where the entry under `key` stands.
    fn position(&self, key: &Text) -> (found: Option<usize>)
        ensures
            match found {
                Some(i) => is_first(self.entries@, key@, i as int),
                None => !occurs(self.entries@, key@),
            },
    {
        let mut i: usize = 0;
        while i < self.entries.len()
            invariant
                i <= self.entries.len(),
                forall|j: int| 0 <= j < i ==> (#[trigger] self.entries@[j]).0@ != key@,
            decreases self.entries.len() - i,
        {
            if self.entries[i].0 == *key {
                return Some(i);
            }
            i += 1;
        }
        None
    }

    /// Whether there is an entry under `key`.
    pub fn contains(&self, key: &Text) -> (found: bool)
        ensures
            found == self@.contains_key(key@),
    {
        self.position(key).is_some()
    }

    /// The entry under `key`.
    pub fn get(&self, key: &Text) -> (value: Option<&V>)
        ensures
            match value {
                Some(v) => self@.contains_key(key@) && v.deep_view() == self@[key@],
                None => !self@.contains_key(key@),
            },
    {
        match self.position(key) {
            Some(i) => Some(&self.entries[i].1),
            None => None,
        }
    }

    /// Stores `value` under `key`, in place of what was there.
    pub fn set(&mut self, key: Text, value: V)
        ensures
            final(self)@ == old(self)@.insert(key@, value.deep_view()),
    {
        let ghost before = self.entries@;
        match self.position(&key) {
            Some(i) => {
                let ghost at = i as int;
                self.entries[i] = (key, value);
                proof {
                    let after = self.entries@;
                    assert forall|k: Seq<u8>, j: int| is_first(after, k, j) <==> is_first(
                        before,
                        k,
                        j,
                    ) by {
                        assert(forall|m: int| 0 <= m < after.len() ==> after[m].0@ == before[m].0@);
                    }
                    assert forall|k: Seq<u8>| occurs(after, k) == occurs(before, k) && (occurs(
                        after,
                        k,
                    ) ==> #[trigger] first(after, k) == first(before, k)) by {
                        let a = first(after, k);
                        let b = first(before, k);
                        assert(is_first(after, k, a) <==> is_first(before, k, a));
                        assert(is_first(after, k, b) <==> is_first(before, k, b));
                    }
                    assert(is_first(after, key@, at));
                    assert(is_first(before, key@, first(before, key@)));
                    assert(first(before, key@) == at);
                }
            },
            None => {
                self.entries.push((key, value));
                proof {
                    let after = self.entries@;
                    let last = before.len() as int;
                    assert(forall|m: int| 0 <= m < last ==> after[m] == before[m]);
                    assert forall|j: int| 0 <= j < last implies (#[trigger] before[j]).0@ != key@ by {
                        if before[j].0@ == key@ {
                            lemma_first_exists(before, key@, j);
                        }
                    }
                    assert(is_first(after, key@, last));
                    assert(is_first(after, key@, first(after, key@)));
                    assert forall|k: Seq<u8>| k != key@ implies occurs(after, k) == occurs(before, k) && (
                    occurs(after, k) ==> #[trigger] first(after, k) == first(before, k)) by {
                        if occurs(before, k) {
                            let b = first(before, k);
                            assert(is_first(before, k, b));
                            assert(is_first(after, k, b));
                            assert(is_first(after, k, first(after, k)));
                        }
                        if occurs(after, k) {
                            let a = first(after, k);
                            assert(is_first(after, k, a));
                            assert(is_first(before, k, a));
                        }
                    }
                }
            },
        }
        proof {
            let after = self@;
            let expected = old(self)@.insert(key@, value.deep_view());
            assert forall|k: Seq<u8>| after.contains_key(k) == expected.contains_key(k) by {
                let _ = first(self.entries@, k);
            }
            assert forall|k: Seq<u8>| after.contains_key(k) implies after[k] == expected[k] by {
                let _ = first(self.entries@, k);
            }
            assert(after =~= expected);
        }
    }
}

/// Where an entry is under `key`, there is a first one.
proof fn lemma_first_exists<V>(entries: Seq<(Text, V)>, key: Seq<u8>, i: int)
    requires
        0 <= i < entries.len(),
        entries[i].0@ == key,
    ensures
        occurs(entries, key),
    decreases i,
{
    if forall|j: int| 0 <= j < i ==> (#[trigger] entries[j]).0@ != key {
        assert(is_first(entries, key, i));
    } else {
        let j = choose|j: int| 0 <= j < i && (#[trigger] entries[j]).0@ == key;
        lemma_first_exists(entries, key, j);
    }
}

} // verus!
