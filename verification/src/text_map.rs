//! A map whose keys are texts.
use vstd::prelude::*;

use crate::lists::retain_where;
use crate::text::same_text;

verus! {

/// A map from texts to values.
#[derive(Debug)]
pub struct TextMap<V> {
    entries: Vec<(String, V)>,
}

/// The map that a list of entries stands for: the first entry of a key counts.
pub closed spec fn map_of<V>(entries: Seq<(String, V)>) -> Map<Seq<char>, V>
    decreases entries.len(),
{
    if entries.len() == 0 {
        Map::empty()
    } else {
        map_of(entries.drop_first()).insert(entries[0].0@, entries[0].1)
    }
}

impl<V> View for TextMap<V> {
    type V = Map<Seq<char>, V>;

    closed spec fn view(&self) -> Map<Seq<char>, V> {
        map_of(self.entries@)
    }
}

/// Whether an entry has another key than `key`.
spec fn has_other_key<V>(key: Seq<char>) -> spec_fn((String, V)) -> bool {
    |e: (String, V)| e.0@ != key
}

proof fn lemma_map_of_absent<V>(entries: Seq<(String, V)>, key: Seq<char>)
    requires
        forall|i: int| 0 <= i < entries.len() ==> (#[trigger] entries[i]).0@ != key,
    ensures
        !map_of(entries).contains_key(key),
    decreases entries.len(),
{
    if entries.len() > 0 {
        let rest = entries.drop_first();
        assert forall|i: int| 0 <= i < rest.len() implies (#[trigger] rest[i]).0@ != key by {
            assert(rest[i] == entries[i + 1]);
        }
        assert(entries[0].0@ != key);
        lemma_map_of_absent(rest, key);
    }
}

proof fn lemma_map_of_first<V>(entries: Seq<(String, V)>, at: int)
    requires
        0 <= at < entries.len(),
        forall|i: int| 0 <= i < at ==> (#[trigger] entries[i]).0@ != entries[at].0@,
    ensures
        map_of(entries).contains_key(entries[at].0@),
        map_of(entries)[entries[at].0@] == entries[at].1,
    decreases entries.len(),
{
    if at > 0 {
        let rest = entries.drop_first();
        assert(rest[at - 1] == entries[at]);
        assert forall|i: int| 0 <= i < at - 1 implies (#[trigger] rest[i]).0@ != rest[at - 1].0@ by {
            assert(rest[i] == entries[i + 1]);
        }
        assert(entries[0].0@ != entries[at].0@);
        lemma_map_of_first(rest, at - 1);
    }
}

proof fn lemma_map_of_push<V>(entries: Seq<(String, V)>, entry: (String, V))
    ensures
        map_of(entries.push(entry)) == if map_of(entries).contains_key(entry.0@) {
            map_of(entries)
        } else {
            map_of(entries).insert(entry.0@, entry.1)
        },
    decreases entries.len(),
{
    if entries.len() == 0 {
        assert(entries.push(entry).drop_first() =~= entries);
    } else {
        let rest = entries.drop_first();
        lemma_map_of_push(rest, entry);
        assert(entries.push(entry).drop_first() =~= rest.push(entry));
        let first = entries[0];
        if first.0@ == entry.0@ {
            assert(map_of(entries.push(entry)) =~= map_of(entries));
        } else if map_of(rest).contains_key(entry.0@) {
            assert(map_of(entries.push(entry)) =~= map_of(entries));
        } else {
            assert(map_of(entries.push(entry)) =~= map_of(entries).insert(entry.0@, entry.1));
        }
    }
}

proof fn lemma_map_of_filter<V>(entries: Seq<(String, V)>, key: Seq<char>)
    ensures
        map_of(entries.filter(has_other_key(key))) == map_of(entries).remove(key),
    decreases entries.len(),
{
    reveal(Seq::filter);
    if entries.len() == 0 {
        assert(map_of(entries).remove(key) =~= map_of(entries));
    } else {
        let init = entries.drop_last();
        let last = entries.last();
        lemma_map_of_filter(init, key);
        lemma_map_of_push(init, last);
        assert(init.push(last) =~= entries);
        if last.0@ != key {
            let kept = init.filter(has_other_key(key));
            assert(entries.filter(has_other_key(key)) == kept.push(last));
            lemma_map_of_push(kept, last);
            assert(map_of(kept).contains_key(last.0@) <==> map_of(init).contains_key(last.0@));
            assert(map_of(kept.push(last)) =~= map_of(entries).remove(key));
        } else {
            assert(map_of(entries).remove(key) =~= map_of(init).remove(key));
        }
    }
}

impl<V> TextMap<V> {
    /// No key at all.
    pub fn new() -> (map: TextMap<V>)
        ensures
            map@ == Map::<Seq<char>, V>::empty(),
    {
        TextMap { entries: Vec::new() }
    }

    /// The value of `key`.
    pub fn get(&self, key: &str) -> (value: Option<&V>)
        ensures
            match value {
                Some(v) => self@.contains_key(key@) && *v == self@[key@],
                None => !self@.contains_key(key@),
            },
    {
        let mut at: usize = 0;
        while at < self.entries.len()
            invariant
                at <= self.entries.len(),
                forall|i: int| 0 <= i < at ==> (#[trigger] self.entries@[i]).0@ != key@,
            decreases self.entries.len() - at,
        {
            if same_text(self.entries[at].0.as_str(), key) {
                proof {
                    lemma_map_of_first(self.entries@, at as int);
                }
                return Some(&self.entries[at].1);
            }
            at = at + 1;
        }
        proof {
            lemma_map_of_absent(self.entries@, key@);
        }
        None
    }

    /// Whether `key` has a value.
    pub fn contains_key(&self, key: &str) -> (found: bool)
        ensures
            found == self@.contains_key(key@),
    {
        self.get(key).is_some()
    }

    /// Takes `key` out of the map.
    pub fn remove(&mut self, key: &str) -> (value: Option<V>)
        ensures
            match value {
                Some(v) => old(self)@.contains_key(key@) && v == old(self)@[key@],
                None => !old(self)@.contains_key(key@),
            },
            final(self)@ == old(self)@.remove(key@),
    {
        let ghost before = self.entries@;
        let mut at: usize = 0;
        while at < self.entries.len() && !same_text(self.entries[at].0.as_str(), key)
            invariant
                self.entries@ == before,
                at <= self.entries.len(),
                forall|i: int| 0 <= i < at ==> (#[trigger] self.entries@[i]).0@ != key@,
            decreases self.entries.len() - at,
        {
            at = at + 1;
        }
        if at == self.entries.len() {
            proof {
                lemma_map_of_absent(before, key@);
                assert(self@.remove(key@) =~= self@);
            }
            return None;
        }
        let found = self.entries.remove(at);
        proof {
            lemma_map_of_first(before, at as int);
            lemma_map_of_filter(before, key@);
            lemma_map_of_filter(self.entries@, key@);
            lemma_filter_without::<V>(before, key@, at as int);
        }
        let keep = |e: &(String, V)| -> (b: bool)
            ensures
                b == (e.0@ != key@),
        {
            !same_text(e.0.as_str(), key)
        };
        retain_where(&mut self.entries, keep, Ghost(has_other_key(key@)));
        Some(found.1)
    }

    /// Gives `key` the value `value`.
    pub fn insert(&mut self, key: String, value: V)
        ensures
            final(self)@ == old(self)@.insert(key@, value),
    {
        let ghost before = self@;
        self.remove(key.as_str());
        proof {
            lemma_map_of_push(self.entries@, (key, value));
            assert(before.remove(key@).insert(key@, value) =~= before.insert(key@, value));
        }
        self.entries.push((key, value));
    }
}

/// Dropping an entry of a key first does not change what a filter on that key
/// leaves.
proof fn lemma_filter_without<V>(entries: Seq<(String, V)>, key: Seq<char>, at: int)
    requires
        0 <= at < entries.len(),
        entries[at].0@ == key,
    ensures
        entries.remove(at).filter(has_other_key(key)) == entries.filter(has_other_key(key)),
    decreases entries.len(),
{
    reveal(Seq::filter);
    if at == entries.len() - 1 {
        assert(entries.remove(at) =~= entries.drop_last());
    } else {
        lemma_filter_without(entries.drop_last(), key, at);
        assert(entries.remove(at).drop_last() =~= entries.drop_last().remove(at));
        assert(entries.remove(at).last() == entries.last());
    }
}

} // verus!
