//! An immutable map from byte strings, in the arena.

use crate::arena::{lemma_items_of, lemma_slice_of, Items};
use crate::text::same;
use bumpalo::Bump;
use vstd::prelude::*;

verus! {

broadcast use {lemma_items_of, lemma_slice_of};

/// A map from byte strings. Adding an entry makes a new map and leaves the old
/// one as it was.
pub struct StrMap<'a, V> {
    pub entries: Items<'a, (&'a [u8], V)>,
}

impl<'a, V> Copy for StrMap<'a, V> {

}

impl<'a, V> Clone for StrMap<'a, V> {
    fn clone(&self) -> (r: Self)
        ensures
            r == *self,
    {
        *self
    }
}

/// The entries of a map with `value` under `key`: in the place of the entry
/// that the key had, else before the others.
pub open spec fn with_entry<'a, V>(
    entries: Seq<(&'a [u8], V)>,
    key: &'a [u8],
    value: V,
) -> Seq<(&'a [u8], V)>
    decreases entries.len(),
{
    if entries.len() == 0 {
        seq![(key, value)]
    } else if entries.last().0@ == key@ {
        entries.drop_last().push((key, value))
    } else {
        with_entry(entries.drop_last(), key, value).push(entries.last())
    }
}

/// What the entries of a map hold under a key.
pub open spec fn lookup<'a, V>(entries: Seq<(&'a [u8], V)>, key: Seq<u8>) -> Option<V>
    decreases entries.len(),
{
    if entries.len() == 0 {
        None
    } else if entries.last().0@ == key {
        Some(entries.last().1)
    } else {
        lookup(entries.drop_last(), key)
    }
}

/// After an entry has been added its key holds the new value, and every other
/// key what it held before.
pub proof fn lemma_lookup_with_entry<'a, V>(
    entries: Seq<(&'a [u8], V)>,
    key: &'a [u8],
    value: V,
    asked: Seq<u8>,
)
    ensures
        lookup(with_entry(entries, key, value), asked) == (if asked == key@ {
            Some(value)
        } else {
            lookup(entries, asked)
        }),
    decreases entries.len(),
{
    reveal_with_fuel(lookup, 2);
    let added = with_entry(entries, key, value);
    if entries.len() == 0 {
        assert(added.drop_last() =~= Seq::<(&'a [u8], V)>::empty());
    } else if entries.last().0@ == key@ {
        assert(added.drop_last() =~= entries.drop_last());
    } else {
        lemma_lookup_with_entry(entries.drop_last(), key, value, asked);
        assert(added.drop_last() =~= with_entry(entries.drop_last(), key, value));
    }
}

proof fn lemma_with_entry_at<'a, V>(
    entries: Seq<(&'a [u8], V)>,
    key: &'a [u8],
    value: V,
    n: int,
)
    requires
        -1 <= n < entries.len(),
        n >= 0 ==> entries[n].0@ == key@,
        forall|j: int| n < j < entries.len() ==> entries[j].0@ != key@,
    ensures
        n >= 0 ==> with_entry(entries, key, value) == entries.update(n, (key, value)),
        n < 0 ==> with_entry(entries, key, value) == seq![(key, value)] + entries,
    decreases entries.len(),
{
    if entries.len() > 0 {
        let rest = entries.drop_last();
        if n < entries.len() - 1 {
            assert(entries.last().0@ != key@);
            assert forall|j: int| n < j < rest.len() implies rest[j].0@ != key@ by {
                assert(entries[j].0@ != key@);
            }
            lemma_with_entry_at(rest, key, value, n);
            if n >= 0 {
                assert(rest.update(n, (key, value)).push(entries.last()) =~= entries.update(
                    n,
                    (key, value),
                ));
            } else {
                assert((seq![(key, value)] + rest).push(entries.last()) =~= seq![(key, value)]
                    + entries);
            }
        } else {
            assert(rest.push((key, value)) =~= entries.update(n, (key, value)));
        }
    } else {
        assert(seq![(key, value)] =~= seq![(key, value)] + entries);
    }
}

impl<'a, V> View for StrMap<'a, V> {
    type V = Map<Seq<u8>, V>;

    open spec fn view(&self) -> Map<Seq<u8>, V> {
        Map::new(
            |key: Seq<u8>| lookup(self.entries@, key) is Some,
            |key: Seq<u8>| lookup(self.entries@, key)->Some_0,
        )
    }
}

impl<'a, V> StrMap<'a, V> {
    /// The map with one more entry, or with another value in an entry.
    pub open spec fn added(self, key: &'a [u8], value: V) -> Self {
        StrMap { entries: Items::of(with_entry(self.entries@, key, value)) }
    }

    pub open spec fn nothing() -> Self {
        StrMap { entries: Items::of(Seq::<(&'a [u8], V)>::empty()) }
    }

    pub fn empty() -> (r: Self)
        ensures
            r == StrMap::<'a, V>::nothing(),
            r@ == Map::<Seq<u8>, V>::empty(),
    {
        let r = StrMap { entries: Items::none() };
        assert(r@ =~= Map::<Seq<u8>, V>::empty());
        r
    }

    /// What the map holds under a key.
    pub fn get(&self, key: &[u8]) -> (r: Option<&'a V>)
        ensures
            match r {
                Some(value) => lookup(self.entries@, key@) == Some(*value),
                None => lookup(self.entries@, key@) is None,
            },
            r is Some <==> self@.contains_key(key@),
            r matches Some(value) ==> *value == self@[key@],
    {
        let entries = self.entries;
        let mut i: usize = entries.len();
        assert(entries@.take(i as int) =~= entries@);
        while i > 0
            invariant
                entries == self.entries,
                i <= entries@.len(),
                lookup(entries@, key@) == lookup(entries@.take(i as int), key@),
            decreases i,
        {
            let entry = entries.at(i - 1);
            assert(entries@.take(i as int).drop_last() =~= entries@.take(i - 1));
            if same(entry.0, key) {
                return Some(&entry.1);
            }
            i = i - 1;
        }
        None
    }
}

impl<'a, V: Copy> StrMap<'a, V> {
    pub fn add(&self, arena: &'a Bump, key: &'a [u8], value: V) -> (r: Self)
        ensures
            r == self.added(key, value),
            r@ == self@.insert(key@, value),
    {
        let entries = self.entries;
        let len = entries.len();
        let mut i: usize = len;
        while i > 0 && !same(entries.at(i - 1).0, key)
            invariant
                entries == self.entries,
                len == entries@.len(),
                i <= len,
                forall|j: int| i <= j < len ==> entries@[j].0@ != key@,
            decreases i,
        {
            i = i - 1;
        }
        let mut copy: Vec<(&'a [u8], V)> = Vec::new();
        if i == 0 {
            copy.push((key, value));
        }
        let ghost head = copy@;
        let mut j: usize = 0;
        while j < len
            invariant
                entries == self.entries,
                len == entries@.len(),
                i <= len,
                j <= len,
                head.len() == (if i == 0 {
                    1int
                } else {
                    0int
                }),
                copy@.len() == head.len() + j,
                forall|n: int| 0 <= n < head.len() ==> copy@[n] == head[n],
                forall|n: int|
                    0 <= n < j ==> #[trigger] copy@[head.len() + n] == (if n + 1 == i {
                        (key, value)
                    } else {
                        entries@[n]
                    }),
            decreases len - j,
        {
            if j + 1 == i {
                copy.push((key, value));
            } else {
                copy.push(*entries.at(j));
            }
            j = j + 1;
        }
        proof {
            lemma_with_entry_at(entries@, key, value, i - 1);
            if i == 0 {
                assert(copy@ =~= seq![(key, value)] + entries@) by {
                    assert forall|n: int| 0 <= n < copy@.len() implies copy@[n] == (seq![
                        (key, value),
                    ] + entries@)[n] by {
                        if n > 0 {
                            assert(copy@[head.len() + (n - 1)] == entries@[n - 1]);
                        }
                    }
                }
            } else {
                assert(copy@ =~= entries@.update(i - 1, (key, value))) by {
                    assert forall|n: int| 0 <= n < copy@.len() implies copy@[n] == entries@.update(
                        i - 1,
                        (key, value),
                    )[n] by {
                        assert(copy@[head.len() + n] == copy@[n]);
                    }
                }
            }
        }
        let r = StrMap { entries: Items::copied(arena, copy.as_slice()) };
        proof {
            assert forall|asked: Seq<u8>|
                lookup(r.entries@, asked) == (if asked == key@ {
                    Some(value)
                } else {
                    lookup(self.entries@, asked)
                }) by {
                lemma_lookup_with_entry(self.entries@, key, value, asked);
            }
            assert(r@ =~= self@.insert(key@, value));
        }
        r
    }
}

/// After an entry has been added its key holds the new value, and every other
/// key what it held before. An empty map holds nothing.
pub proof fn law_added_entry<'a, V>(map: StrMap<'a, V>, key: &'a [u8], value: V, asked: Seq<u8>)
    ensures
        lookup(map.added(key, value).entries@, asked) == (if asked == key@ {
            Some(value)
        } else {
            lookup(map.entries@, asked)
        }),
        lookup(StrMap::<'a, V>::nothing().entries@, asked) is None,
{
    lemma_lookup_with_entry(map.entries@, key, value, asked);
}

} // verus!
