//! Operations on `Vec` and ordered maps that several modules share.
use std::collections::BTreeMap;
use std::collections::BTreeSet;
use vstd::prelude::*;
use vstd::std_specs::iter::IteratorSpec;

verus! {

/// Keeps the items for which `keep` holds, in their order.
pub(crate) fn retain_where<T, F: Fn(&T) -> bool>(
    items: &mut Vec<T>,
    keep: F,
    Ghost(kept): Ghost<spec_fn(T) -> bool>,
)
    requires
        forall|x: &T| #[trigger] call_requires(keep, (x,)),
        forall|x: &T, b: bool| #[trigger] call_ensures(keep, (x,), b) ==> b == kept(*x),
    ensures
        final(items)@ == old(items)@.filter(kept),
{
    let ghost before = items@;
    let mut seen: usize = 0;
    let mut at: usize = 0;
    let total: usize = items.len();
    proof {
        reveal(Seq::filter);
        assert(before.subrange(0, 0).filter(kept) =~= Seq::empty());
    }
    while seen < total
        invariant
            seen <= total,
            total == before.len(),
            at == before.subrange(0, seen as int).filter(kept).len(),
            items@ == before.subrange(0, seen as int).filter(kept) + before.subrange(
                seen as int,
                before.len() as int,
            ),
            forall|x: &T| #[trigger] call_requires(keep, (x,)),
            forall|x: &T, b: bool| #[trigger] call_ensures(keep, (x,), b) ==> b == kept(*x),
        decreases total - seen,
    {
        proof {
            reveal(Seq::filter);
            let next = before.subrange(0, seen + 1);
            assert(next.drop_last() =~= before.subrange(0, seen as int));
            assert(next.last() == before[seen as int]);
            assert(items@[at as int] == before[seen as int]);
        }
        if keep(&items[at]) {
            proof {
                assert(items@ =~= before.subrange(0, seen + 1).filter(kept) + before.subrange(
                    seen + 1,
                    before.len() as int,
                ));
            }
            at = at + 1;
        } else {
            items.remove(at);
            proof {
                assert(items@ =~= before.subrange(0, seen + 1).filter(kept) + before.subrange(
                    seen + 1,
                    before.len() as int,
                ));
            }
        }
        seen = seen + 1;
    }
    proof {
        assert(before.subrange(0, before.len() as int) =~= before);
        assert(items@ =~= before.filter(kept));
    }
}

/// An item that was kept by a filter was there before, and was to be kept.
pub proof fn lemma_filter_source<T>(items: Seq<T>, kept: spec_fn(T) -> bool, i: int) -> (j: int)
    requires
        0 <= i < items.filter(kept).len(),
    ensures
        0 <= j < items.len(),
        items[j] == items.filter(kept)[i],
        kept(items[j]),
    decreases items.len(),
{
    reveal(Seq::filter);
    let rest = items.drop_last();
    if i < rest.filter(kept).len() {
        lemma_filter_source(rest, kept, i)
    } else {
        items.len() - 1
    }
}

/// The first item of which `wanted` holds.
pub open spec fn first_match<T>(items: Seq<T>, wanted: spec_fn(T) -> bool) -> Option<T>
    decreases items.len(),
{
    if items.len() == 0 {
        None
    } else if wanted(items[0]) {
        Some(items[0])
    } else {
        first_match(items.drop_first(), wanted)
    }
}

/// The index of the first item of which `wanted` holds.
pub open spec fn first_index<T>(items: Seq<T>, wanted: spec_fn(T) -> bool) -> Option<int>
    decreases items.len(),
{
    if items.len() == 0 {
        None
    } else if wanted(items[0]) {
        Some(0)
    } else {
        match first_index(items.drop_first(), wanted) {
            Some(i) => Some(i + 1),
            None => None,
        }
    }
}

/// An index is the first one where the item is wanted and none before it is.
pub proof fn lemma_first_index_found<T>(items: Seq<T>, wanted: spec_fn(T) -> bool, at: int)
    requires
        0 <= at < items.len(),
        wanted(items[at]),
        forall|i: int| 0 <= i < at ==> !wanted(#[trigger] items[i]),
    ensures
        first_index(items, wanted) == Some(at),
    decreases items.len(),
{
    if at > 0 {
        let rest = items.drop_first();
        assert forall|i: int| 0 <= i < at - 1 implies !wanted(#[trigger] rest[i]) by {
            assert(rest[i] == items[i + 1]);
        }
        assert(!wanted(items[0]));
        lemma_first_index_found(rest, wanted, at - 1);
    }
}

/// Where no item is wanted there is no first index.
pub proof fn lemma_first_index_none<T>(items: Seq<T>, wanted: spec_fn(T) -> bool)
    requires
        forall|i: int| 0 <= i < items.len() ==> !wanted(#[trigger] items[i]),
    ensures
        first_index(items, wanted) is None,
    decreases items.len(),
{
    if items.len() > 0 {
        assert(!wanted(items[0]));
        let rest = items.drop_first();
        assert forall|i: int| 0 <= i < rest.len() implies !wanted(#[trigger] rest[i]) by {
            assert(rest[i] == items[i + 1]);
        }
        lemma_first_index_none(rest, wanted);
    }
}

/// An item is the first match where none before it is one.
pub proof fn lemma_first_match_found<T>(items: Seq<T>, wanted: spec_fn(T) -> bool, at: int)
    requires
        0 <= at < items.len(),
        wanted(items[at]),
        forall|i: int| 0 <= i < at ==> !wanted(#[trigger] items[i]),
    ensures
        first_match(items, wanted) == Some(items[at]),
    decreases items.len(),
{
    if at > 0 {
        let rest = items.drop_first();
        assert forall|i: int| 0 <= i < at - 1 implies !wanted(#[trigger] rest[i]) by {
            assert(rest[i] == items[i + 1]);
        }
        assert(!wanted(items[0]));
        lemma_first_match_found(rest, wanted, at - 1);
    }
}

/// Where no item is wanted there is no first match.
pub proof fn lemma_first_match_none<T>(items: Seq<T>, wanted: spec_fn(T) -> bool)
    requires
        forall|i: int| 0 <= i < items.len() ==> !wanted(#[trigger] items[i]),
    ensures
        first_match(items, wanted) is None,
    decreases items.len(),
{
    if items.len() > 0 {
        assert(!wanted(items[0]));
        let rest = items.drop_first();
        assert forall|i: int| 0 <= i < rest.len() implies !wanted(#[trigger] rest[i]) by {
            assert(rest[i] == items[i + 1]);
        }
        lemma_first_match_none(rest, wanted);
    }
}

/// A first match is one of the items, and is wanted.
pub proof fn lemma_first_match_sound<T>(items: Seq<T>, wanted: spec_fn(T) -> bool)
    ensures
        first_match(items, wanted) matches Some(found) ==> items.contains(found) && wanted(found),
        first_match(items, wanted) is None ==> forall|i: int|
            0 <= i < items.len() ==> !wanted(#[trigger] items[i]),
    decreases items.len(),
{
    if items.len() > 0 && !wanted(items[0]) {
        let rest = items.drop_first();
        lemma_first_match_sound(rest, wanted);
        match first_match(rest, wanted) {
            Some(found) => {
                let i = rest.index_of(found);
                assert(items[i + 1] == found);
            },
            None => {
                assert forall|i: int| 0 <= i < items.len() implies !wanted(#[trigger] items[i]) by {
                    if i > 0 {
                        assert(rest[i - 1] == items[i]);
                    }
                }
            },
        }
    } else if items.len() > 0 {
        assert(items.contains(items[0]));
    }
}

/// Strictly increasing numbers.
pub open spec fn is_increasing(keys: Seq<u64>) -> bool {
    forall|i: int, j: int| 0 <= i < j < keys.len() ==> keys[i] < keys[j]
}

/// `keys` lists the domain of `map` in increasing order.
pub open spec fn is_sorted_domain<V>(keys: Seq<u64>, map: Map<u64, V>) -> bool {
    &&& is_increasing(keys)
    &&& forall|k: u64| #[trigger] keys.contains(k) <==> map.contains_key(k)
}

/// Two increasing lists with the same members are the same list.
pub proof fn lemma_increasing_unique(a: Seq<u64>, b: Seq<u64>)
    requires
        is_increasing(a),
        is_increasing(b),
        forall|k: u64| #[trigger] a.contains(k) <==> b.contains(k),
    ensures
        a == b,
    decreases a.len() + b.len(),
{
    if a.len() == 0 {
        if b.len() > 0 {
            assert(b.contains(b[0]));
            assert(a.contains(b[0]));
        }
        assert(a =~= b);
    } else if b.len() == 0 {
        assert(a.contains(a[0]));
        assert(b.contains(a[0]));
    } else {
        let (x, y) = (a.last(), b.last());
        assert(a.contains(x));
        assert(b.contains(y));
        assert(b.contains(x));
        assert(a.contains(y));
        let i = b.index_of(x);
        let j = a.index_of(y);
        assert(b[i] == x && a[j] == y);
        assert(x == y);
        let (c, d) = (a.drop_last(), b.drop_last());
        assert forall|k: u64| #[trigger] c.contains(k) <==> d.contains(k) by {
            if c.contains(k) {
                let m = c.index_of(k);
                assert(a[m] == k);
                assert(a.contains(k));
                let n = b.index_of(k);
                assert(b[n] == k && k < x);
                assert(d[n] == k);
            }
            if d.contains(k) {
                let m = d.index_of(k);
                assert(b[m] == k);
                assert(b.contains(k));
                assert(a.contains(k));
                let n = a.index_of(k);
                assert(a[n] == k && k < y);
                assert(c[n] == k);
            }
        }
        lemma_increasing_unique(c, d);
        assert(a =~= c.push(x));
        assert(b =~= d.push(y));
    }
}

/// The numbers of which `wanted` holds, in increasing order.
pub open spec fn sorted_members(wanted: spec_fn(u64) -> bool) -> Seq<u64> {
    choose|keys: Seq<u64>|
        is_increasing(keys) && forall|k: u64| #[trigger] keys.contains(k) <==> wanted(k)
}

/// An increasing list of exactly the wanted numbers is the list of them.
pub proof fn lemma_sorted_members(keys: Seq<u64>, wanted: spec_fn(u64) -> bool)
    requires
        is_increasing(keys),
        forall|k: u64| #[trigger] keys.contains(k) <==> wanted(k),
    ensures
        sorted_members(wanted) == keys,
{
    let chosen = sorted_members(wanted);
    assert(is_increasing(chosen) && forall|k: u64| #[trigger]
        chosen.contains(k) <==> wanted(k));
    assert forall|k: u64| #[trigger] chosen.contains(k) <==> keys.contains(k) by {}
    lemma_increasing_unique(chosen, keys);
}

/// A part of an increasing list is increasing.
pub proof fn lemma_filter_increasing(keys: Seq<u64>, kept: spec_fn(u64) -> bool)
    requires
        is_increasing(keys),
    ensures
        is_increasing(keys.filter(kept)),
        forall|k: u64| #[trigger] keys.filter(kept).contains(k) <==> keys.contains(k) && kept(k),
    decreases keys.len(),
{
    reveal(Seq::filter);
    if keys.len() > 0 {
        let rest = keys.drop_last();
        lemma_filter_increasing(rest, kept);
        let out = keys.filter(kept);
        assert forall|i: int, j: int| 0 <= i < j < out.len() implies out[i] < out[j] by {
            if j == rest.filter(kept).len() {
                assert(rest.filter(kept).contains(out[i]));
                let n = rest.index_of(out[i]);
                assert(keys[n] == out[i]);
            }
        }
        assert forall|k: u64| #[trigger] out.contains(k) <==> keys.contains(k) && kept(k) by {
            if out.contains(k) {
                let i = out.index_of(k);
                if i < rest.filter(kept).len() {
                    assert(rest.filter(kept)[i] == k);
                    assert(rest.filter(kept).contains(k));
                    let n = rest.index_of(k);
                    assert(keys[n] == k);
                } else {
                    assert(keys[keys.len() - 1] == k);
                }
            }
            if keys.contains(k) && kept(k) {
                let n = keys.index_of(k);
                if n < rest.len() {
                    assert(rest[n] == k);
                    assert(rest.filter(kept).contains(k));
                    let i = rest.filter(kept).index_of(k);
                    assert(out[i] == k);
                } else {
                    assert(out[out.len() - 1] == k);
                }
            }
        }
    }
}

/// Adds `key` at its place in an increasing list.
fn insert_sorted(keys: &mut Vec<u64>, key: u64)
    requires
        is_increasing(old(keys)@),
    ensures
        is_increasing(final(keys)@),
        forall|k: u64| #[trigger] final(keys)@.contains(k) <==> k == key || old(keys)@.contains(k),
{
    let ghost before = keys@;
    let mut at: usize = 0;
    while at < keys.len() && keys[at] < key
        invariant
            keys@ == before,
            is_increasing(before),
            at <= keys.len(),
            forall|i: int| 0 <= i < at ==> before[i] < key,
        decreases keys.len() - at,
    {
        at = at + 1;
    }
    if at < keys.len() && keys[at] == key {
        proof {
            assert(before.contains(before[at as int]));
        }
        return ;
    }
    keys.insert(at, key);
    proof {
        assert forall|k: u64| #[trigger] keys@.contains(k) <==> k == key || before.contains(k) by {
            if before.contains(k) {
                let i = before.index_of(k);
                if i < at {
                    assert(keys@[i] == k);
                } else {
                    assert(keys@[i + 1] == k);
                }
            }
            if k == key {
                assert(keys@[at as int] == k);
            }
            if keys@.contains(k) && k != key {
                let i = keys@.index_of(k);
                if i < at {
                    assert(before[i] == k);
                } else {
                    assert(before[i - 1] == k);
                }
            }
        }
    }
}

/// The members of two increasing lists in one.
pub(crate) fn merge_sorted(a: Vec<u64>, b: &Vec<u64>) -> (merged: Vec<u64>)
    requires
        is_increasing(a@),
    ensures
        is_increasing(merged@),
        forall|k: u64| #[trigger] merged@.contains(k) <==> a@.contains(k) || b@.contains(k),
{
    let ghost first = a@;
    let mut merged = a;
    let mut at: usize = 0;
    proof {
        assert(b@.take(0) =~= Seq::<u64>::empty());
    }
    while at < b.len()
        invariant
            at <= b.len(),
            is_increasing(merged@),
            forall|k: u64| #[trigger]
                merged@.contains(k) <==> first.contains(k) || b@.take(at as int).contains(k),
        decreases b.len() - at,
    {
        insert_sorted(&mut merged, b[at]);
        proof {
            let done = b@.take(at as int);
            let next = b@.take(at + 1);
            assert(next =~= done.push(b@[at as int]));
            assert forall|k: u64| #[trigger]
                merged@.contains(k) <==> first.contains(k) || next.contains(k) by {
                if next.contains(k) {
                    let i = next.index_of(k);
                    if i < done.len() {
                        assert(done[i] == k);
                    }
                }
                if done.contains(k) {
                    let i = done.index_of(k);
                    assert(next[i] == k);
                }
                assert(next[done.len() as int] == b@[at as int]);
            }
        }
        at = at + 1;
    }
    proof {
        assert(b@.take(b@.len() as int) =~= b@);
    }
    merged
}

/// Lists the members of `set` in increasing order.
pub(crate) fn sorted_set(set: &BTreeSet<u64>) -> (keys: Vec<u64>)
    ensures
        is_increasing(keys@),
        forall|k: u64| #[trigger] keys@.contains(k) <==> set@.contains(k),
{
    let mut keys: Vec<u64> = Vec::new();
    for key in iter: set.iter()
        invariant
            is_increasing(keys@),
            forall|k: u64| #[trigger]
                keys@.contains(k) <==> iter.seq().unref().take(iter.index()).contains(k),
    {
        let ghost done = iter.seq().unref().take(iter.index());
        insert_sorted(&mut keys, *key);
        proof {
            let next = iter.seq().unref().take(iter.index() + 1);
            assert(next =~= done.push(*key));
            assert forall|k: u64| #[trigger] keys@.contains(k) <==> next.contains(k) by {
                if next.contains(k) {
                    let i = next.index_of(k);
                    if i < done.len() {
                        assert(done[i] == k);
                    }
                }
                if done.contains(k) {
                    let i = done.index_of(k);
                    assert(next[i] == k);
                }
                assert(next[done.len() as int] == *key);
            }
        }
    }
    proof {
        let all = set.iter().remaining().unref();
        assert(all.take(all.len() as int) =~= all);
        assert forall|k: u64| #[trigger] keys@.contains(k) <==> set@.contains(k) by {
            assert(all.to_set().contains(k) <==> set@.contains(k));
        }
    }
    keys
}

/// Lists the keys of `map` in increasing order.
pub(crate) fn sorted_keys<V>(map: &BTreeMap<u64, V>) -> (keys: Vec<u64>)
    ensures
        is_sorted_domain(keys@, map@),
{
    let mut keys: Vec<u64> = Vec::new();
    for key in iter: map.keys()
        invariant
            is_increasing(keys@),
            forall|k: u64| #[trigger]
                keys@.contains(k) <==> iter.seq().unref().take(iter.index()).contains(k),
    {
        let ghost done = iter.seq().unref().take(iter.index());
        insert_sorted(&mut keys, *key);
        proof {
            let next = iter.seq().unref().take(iter.index() + 1);
            assert(next =~= done.push(*key));
            assert forall|k: u64| #[trigger] keys@.contains(k) <==> next.contains(k) by {
                if next.contains(k) {
                    let i = next.index_of(k);
                    if i < done.len() {
                        assert(done[i] == k);
                    }
                }
                if done.contains(k) {
                    let i = done.index_of(k);
                    assert(next[i] == k);
                }
                assert(next[done.len() as int] == *key);
            }
        }
    }
    proof {
        let all = map.keys().remaining().unref();
        assert(all.take(all.len() as int) =~= all);
        assert forall|k: u64| #[trigger] keys@.contains(k) <==> map@.contains_key(k) by {
            assert(all.to_set().contains(k) <==> map@.dom().contains(k));
        }
    }
    keys
}

/// The members of a finite set can be listed in increasing order.
pub proof fn lemma_sorted_exists(members: Set<u64>) -> (keys: Seq<u64>)
    requires
        members.finite(),
    ensures
        is_increasing(keys),
        forall|k: u64| #[trigger] keys.contains(k) <==> members.contains(k),
    decreases members.len(),
{
    if members.len() == 0 {
        assert(members =~= Set::<u64>::empty());
        Seq::empty()
    } else {
        let x = members.choose();
        assert(members.contains(x));
        let rest = lemma_sorted_exists(members.remove(x));
        assert(!rest.contains(x));
        let at = lemma_place_of(rest, x);
        let keys = rest.take(at).push(x) + rest.skip(at);
        assert forall|k: u64| #[trigger] keys.contains(k) <==> members.contains(k) by {
            if keys.contains(k) {
                let i = keys.index_of(k);
                if i < at {
                    assert(rest[i] == k);
                    assert(rest.contains(k));
                } else if i > at {
                    assert(rest[i - 1] == k);
                    assert(rest.contains(k));
                }
            }
            if members.contains(k) {
                if k == x {
                    assert(keys[at] == x);
                } else {
                    assert(rest.contains(k));
                    let i = rest.index_of(k);
                    if i < at {
                        assert(keys[i] == k);
                    } else {
                        assert(keys[i + 1] == k);
                    }
                }
            }
        }
        assert forall|i: int, j: int| 0 <= i < j < keys.len() implies keys[i] < keys[j] by {
            if j < at {
                assert(keys[i] == rest[i] && keys[j] == rest[j]);
            } else if j == at {
                assert(keys[i] == rest[i]);
            } else if i < at {
                assert(keys[i] == rest[i] && keys[j] == rest[j - 1]);
            } else if i == at {
                assert(keys[j] == rest[j - 1]);
            } else {
                assert(keys[i] == rest[i - 1] && keys[j] == rest[j - 1]);
            }
        }
        keys
    }
}

/// Where a further number goes in an increasing list.
proof fn lemma_place_of(keys: Seq<u64>, x: u64) -> (at: int)
    requires
        is_increasing(keys),
        !keys.contains(x),
    ensures
        0 <= at <= keys.len(),
        forall|i: int| 0 <= i < at ==> keys[i] < x,
        forall|i: int| at <= i < keys.len() ==> x < keys[i],
    decreases keys.len(),
{
    if keys.len() == 0 {
        0
    } else {
        let rest = keys.drop_last();
        assert(keys.contains(keys.last()));
        if keys.last() < x {
            keys.len() as int
        } else {
            assert(!rest.contains(x)) by {
                if rest.contains(x) {
                    let i = rest.index_of(x);
                    assert(keys[i] == x);
                }
            }
            let at = lemma_place_of(rest, x);
            assert forall|i: int| at <= i < keys.len() implies x < keys[i] by {
                if i < rest.len() {
                    assert(rest[i] == keys[i]);
                }
            }
            assert forall|i: int| 0 <= i < at implies keys[i] < x by {
                assert(rest[i] == keys[i]);
            }
            at
        }
    }
}

} // verus!
