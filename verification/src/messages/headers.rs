//! Message headers: a finite map from text keys to text values that keeps
//! the order in which its keys were first inserted.

use vstd::prelude::*;
use crate::messages::kafka_message::Text;

verus! {

/// The map that a list of key/value pairs stands for: a later pair
/// replaces an earlier one with the same key.
pub open spec fn pairs_map(pairs: Seq<(Text, Text)>) -> Map<Text, Text>
    decreases pairs.len(),
{
    if pairs.len() == 0 {
        Map::empty()
    } else {
        pairs_map(pairs.drop_last()).insert(pairs.last().0, pairs.last().1)
    }
}

/// No key stands in two places of the list.
pub open spec fn distinct_keys(pairs: Seq<(Text, Text)>) -> bool {
    forall|i: int, j: int| 0 <= i < j < pairs.len() ==> pairs[i].0 != pairs[j].0
}

/// Some pair of the list has this key.
pub open spec fn has_key(pairs: Seq<(Text, Text)>, key: Text) -> bool {
    exists|i: int| 0 <= i < pairs.len() && (#[trigger] pairs[i]).0 == key
}

/// The keys of the map are the keys of the list.
pub proof fn lemma_pairs_map_dom(pairs: Seq<(Text, Text)>, key: Text)
    ensures
        pairs_map(pairs).dom().contains(key) <==> has_key(pairs, key),
    decreases pairs.len(),
{
    if pairs.len() > 0 {
        let front = pairs.drop_last();
        lemma_pairs_map_dom(front, key);
        if has_key(front, key) {
            let i = choose|i: int| 0 <= i < front.len() && (#[trigger] front[i]).0 == key;
            assert(pairs[i].0 == key);
        }
        if has_key(pairs, key) {
            let i = choose|i: int| 0 <= i < pairs.len() && (#[trigger] pairs[i]).0 == key;
            if i < front.len() {
                assert(front[i].0 == key);
            }
        }
        if pairs.last().0 == key {
            assert(pairs[pairs.len() - 1].0 == key);
        }
    }
}

/// A list of distinct keys stays one when its last pair is taken away.
pub proof fn lemma_distinct_front(pairs: Seq<(Text, Text)>)
    requires
        distinct_keys(pairs),
        pairs.len() > 0,
    ensures
        distinct_keys(pairs.drop_last()),
{
    let front = pairs.drop_last();
    assert forall|a: int, b: int| 0 <= a < b < front.len() implies front[a].0 != front[b].0 by {
        assert(pairs[a].0 != pairs[b].0);
    }
}

/// Where keys are distinct, the map gives each key the value beside it.
pub proof fn lemma_pairs_map_value(pairs: Seq<(Text, Text)>, i: int)
    requires
        distinct_keys(pairs),
        0 <= i < pairs.len(),
    ensures
        pairs_map(pairs).dom().contains(pairs[i].0),
        pairs_map(pairs)[pairs[i].0] == pairs[i].1,
    decreases pairs.len(),
{
    let front = pairs.drop_last();
    if i < pairs.len() - 1 {
        lemma_distinct_front(pairs);
        lemma_pairs_map_value(front, i);
        assert(front[i] == pairs[i]);
        assert(pairs[i].0 != pairs[pairs.len() - 1].0);
    }
}

/// Replacing the value beside a key is inserting into the map.
pub proof fn lemma_pairs_map_update(pairs: Seq<(Text, Text)>, i: int, value: Text)
    requires
        distinct_keys(pairs),
        0 <= i < pairs.len(),
    ensures
        distinct_keys(pairs.update(i, (pairs[i].0, value))),
        pairs_map(pairs.update(i, (pairs[i].0, value))) == pairs_map(pairs).insert(
            pairs[i].0,
            value,
        ),
    decreases pairs.len(),
{
    let key = pairs[i].0;
    let changed = pairs.update(i, (key, value));
    let front = pairs.drop_last();
    assert(distinct_keys(changed)) by {
        assert forall|a: int, b: int| 0 <= a < b < changed.len() implies changed[a].0
            != changed[b].0 by {
            assert(pairs[a].0 != pairs[b].0);
        }
    }
    if i == pairs.len() - 1 {
        assert(changed.drop_last() =~= front);
        assert(pairs_map(changed) =~= pairs_map(pairs).insert(key, value));
    } else {
        lemma_distinct_front(pairs);
        lemma_pairs_map_update(front, i, value);
        assert(front[i] == pairs[i]);
        assert(changed.drop_last() =~= front.update(i, (key, value)));
        assert(changed.last() == pairs.last());
        assert(pairs[i].0 != pairs[pairs.len() - 1].0);
        assert(pairs_map(changed) =~= pairs_map(pairs).insert(key, value));
    }
}

/// The headers of a message: text values under distinct text keys.
#[derive(Debug)]
pub struct Headers {
    entries: Vec<(String, String)>,
}

/// The keys and values of stored entries as sequences of characters.
pub open spec fn entry_texts(entries: Seq<(String, String)>) -> Seq<(Text, Text)> {
    Seq::new(entries.len(), |i: int| (entries[i].0@, entries[i].1@))
}

impl View for Headers {
    type V = Map<Text, Text>;

    /// The map from each key to its value.
    open spec fn view(&self) -> Map<Text, Text> {
        pairs_map(self.pairs())
    }
}

impl Headers {
    /// The entries in the order in which their keys were first inserted.
    pub closed spec fn pairs(&self) -> Seq<(Text, Text)> {
        entry_texts(self.entries@)
    }

    /// No key stands in two entries.
    #[verifier::type_invariant]
    pub open spec fn well_formed(&self) -> bool {
        distinct_keys(self.pairs())
    }

    /// Headers without any entry.
    pub fn new() -> (headers: Headers)
        ensures
            headers.pairs() == Seq::<(Text, Text)>::empty(),
            headers@ == Map::<Text, Text>::empty(),
    {
        let headers = Headers { entries: Vec::new() };
        assert(headers.pairs() =~= Seq::<(Text, Text)>::empty());
        headers
    }

    /// The number of entries.
    pub fn len(&self) -> (count: usize)
        ensures
            count == self.pairs().len(),
    {
        self.entries.len()
    }

    /// The key of the entry at `index`.
    pub fn key_at(&self, index: usize) -> (key: &String)
        requires
            index < self.pairs().len(),
        ensures
            key@ == self.pairs()[index as int].0,
    {
        &self.entries[index].0
    }

    /// The value of the entry at `index`.
    pub fn value_at(&self, index: usize) -> (value: &String)
        requires
            index < self.pairs().len(),
        ensures
            value@ == self.pairs()[index as int].1,
    {
        &self.entries[index].1
    }

    /// The place of the entry with this key, if there is one.
    fn position(&self, key: &String) -> (found: Option<usize>)
        ensures
            match found {
                Some(index) => index < self.pairs().len() && self.pairs()[index as int].0 == key@,
                None => !has_key(self.pairs(), key@),
            },
    {
        let mut index: usize = 0;
        while index < self.entries.len()
            invariant
                index <= self.entries.len(),
                forall|i: int| 0 <= i < index ==> (#[trigger] self.pairs()[i]).0 != key@,
            decreases self.entries.len() - index,
        {
            if self.entries[index].0 == *key {
                return Some(index);
            }
            index = index + 1;
        }
        None
    }

    /// Whether some entry has this key.
    pub fn contains_key(&self, key: &str) -> (found: bool)
        ensures
            found == self@.dom().contains(key@),
    {
        let wanted: String = key.to_owned();
        proof {
            lemma_pairs_map_dom(self.pairs(), key@);
        }
        self.position(&wanted).is_some()
    }

    /// The value under this key, if there is one.
    pub fn get(&self, key: &str) -> (value: Option<&String>)
        ensures
            value is Some <==> self@.dom().contains(key@),
            value matches Some(text) ==> text@ == self@[key@],
    {
        let wanted: String = key.to_owned();
        proof {
            use_type_invariant(self);
            lemma_pairs_map_dom(self.pairs(), key@);
        }
        match self.position(&wanted) {
            Some(index) => {
                proof {
                    lemma_pairs_map_value(self.pairs(), index as int);
                }
                Some(&self.entries[index].1)
            },
            None => None,
        }
    }

    /// Puts `value` under `key`, in place of the value that was there, if any.
    pub fn insert(&mut self, key: String, value: String)
        ensures
            final(self)@ == old(self)@.insert(key@, value@),
            has_key(old(self).pairs(), key@) ==> final(self).pairs().len() == old(self).pairs().len(),
            !has_key(old(self).pairs(), key@) ==> final(self).pairs() == old(self).pairs().push(
                (key@, value@),
            ),
    {
        proof {
            use_type_invariant(&*self);
        }
        let ghost before = self.pairs();
        let found = self.position(&key);
        let mut entries: Vec<(String, String)> = Vec::new();
        std::mem::swap(&mut self.entries, &mut entries);
        assert(entry_texts(entries@) == before);
        match found {
            Some(index) => {
                proof {
                    lemma_pairs_map_update(before, index as int, value@);
                    assert(before[index as int].0 == key@);
                }
                entries.set(index, (key, value));
                assert(entry_texts(entries@) =~= before.update(index as int, (key@, value@)));
            },
            None => {
                entries.push((key, value));
                let ghost after = entry_texts(entries@);
                assert(after =~= before.push((key@, value@)));
                assert(after.drop_last() =~= before);
                assert(distinct_keys(after)) by {
                    assert forall|a: int, b: int| 0 <= a < b < after.len() implies after[a].0
                        != after[b].0 by {
                        if b < before.len() {
                            assert(before[a].0 != before[b].0);
                        } else {
                            assert(before[a].0 != key@);
                        }
                    }
                }
            },
        }
        self.entries = entries;
    }

    /// A copy of these headers.
    pub fn duplicate(&self) -> (copy: Headers)
        ensures
            copy.pairs() == self.pairs(),
            copy@ == self@,
    {
        proof {
            use_type_invariant(self);
        }
        let mut entries: Vec<(String, String)> = Vec::new();
        let mut index: usize = 0;
        while index < self.entries.len()
            invariant
                index <= self.entries.len(),
                entries.len() == index,
                entry_texts(entries@) == self.pairs().take(index as int),
            decreases self.entries.len() - index,
        {
            let ghost before = entries@;
            let key: String = self.entries[index].0.clone();
            let value: String = self.entries[index].1.clone();
            entries.push((key, value));
            assert forall|i: int| 0 <= i < index + 1 implies entry_texts(entries@)[i]
                == self.pairs()[i] by {
                if i < index {
                    assert(entries@[i] == before[i]);
                    assert(entry_texts(before)[i] == self.pairs().take(index as int)[i]);
                }
            }
            assert(entry_texts(entries@) =~= self.pairs().take(index + 1));
            index = index + 1;
        }
        assert(self.pairs().take(index as int) =~= self.pairs());
        Headers { entries }
    }
}

} // verus!
