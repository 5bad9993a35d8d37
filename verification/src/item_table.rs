//! A table of values by media item: at most one value for each item, an item
//! being known by its kind, its identity number and the path it was read from.
use vstd::prelude::*;

use crate::media_item::MediaItem;

verus! {

/// The three kinds of media item.
#[derive(PartialEq, Eq, Structural, Clone, Copy, Debug)]
pub enum ItemKind {
    Movie,
    Show,
    Episode,
}

/// What identifies an item: its kind, its identity number and the path it was
/// read from. A catalog gives each item it makes a number of its own, so its
/// items never share a key (`lemma_catalog_keys_distinct`,
/// `lemma_builder_keys_distinct`). An item made on its own has number 0 until
/// a catalog gives it one, so two such items of one kind and path are the
/// same item here.
pub open spec fn item_key(item: MediaItem) -> (ItemKind, u64, Seq<char>) {
    match item {
        MediaItem::Movie(m) => (ItemKind::Movie, m.uid, m.src@),
        MediaItem::Show(s) => (ItemKind::Show, s.uid, s.src@),
        MediaItem::Episode(e) => (ItemKind::Episode, e.uid, e.src@),
    }
}

/// No two of `items` share a key: each is an item of its own.
pub open spec fn keys_distinct(items: Seq<MediaItem>) -> bool {
    forall|i: int, j: int|
        0 <= i < items.len() && 0 <= j < items.len() && i != j ==> item_key(#[trigger] items[i])
            != item_key(#[trigger] items[j])
}

/// Some entry of `entries` is for the item with key `k`.
pub open spec fn has_entry<V>(entries: Seq<(MediaItem, V)>, k: (ItemKind, u64, Seq<char>)) -> bool {
    exists|i: int| 0 <= i < entries.len() && item_key(#[trigger] entries[i].0) == k
}

/// The index of the entry for the item with key `k`, where there is one.
pub open spec fn entry_index<V>(entries: Seq<(MediaItem, V)>, k: (ItemKind, u64, Seq<char>)) -> int {
    choose|i: int| 0 <= i < entries.len() && item_key(#[trigger] entries[i].0) == k
}

/// No two entries are for the same item.
pub open spec fn keys_unique<V>(entries: Seq<(MediaItem, V)>) -> bool {
    forall|i: int, j: int|
        0 <= i < entries.len() && 0 <= j < entries.len() && i != j ==> item_key(#[trigger] entries[i].0)
            != item_key(#[trigger] entries[j].0)
}

/// The entries as a map from item key to value.
pub open spec fn entries_map<V>(entries: Seq<(MediaItem, V)>) -> Map<(ItemKind, u64, Seq<char>), V> {
    Map::new(|k: (ItemKind, u64, Seq<char>)| has_entry(entries, k), |k: (ItemKind, u64, Seq<char>)| entries[entry_index(entries, k)].1)
}

/// Two items are equal when they have the same key: one kind, one identity
/// number and one path (see `item_key`).
impl PartialEq for MediaItem {
    fn eq(&self, other: &Self) -> (res: bool) {
        key_matches(self, other)
    }
}

impl vstd::std_specs::cmp::PartialEqSpecImpl for MediaItem {
    open spec fn obeys_eq_spec() -> bool {
        true
    }

    open spec fn eq_spec(&self, other: &Self) -> bool {
        item_key(*self) == item_key(*other)
    }
}

fn key_matches(a: &MediaItem, b: &MediaItem) -> (res: bool)
    ensures
        res == (item_key(*a) == item_key(*b)),
{
    match (a, b) {
        (MediaItem::Movie(x), MediaItem::Movie(y)) => x.uid == y.uid && crate::text::strings_equal(&x.src, &y.src),
        (MediaItem::Show(x), MediaItem::Show(y)) => x.uid == y.uid && crate::text::strings_equal(&x.src, &y.src),
        (MediaItem::Episode(x), MediaItem::Episode(y)) => x.uid == y.uid && crate::text::strings_equal(&x.src, &y.src),
        _ => false,
    }
}

/// Values by media item.
pub struct ItemTable<V> {
    entries: Vec<(MediaItem, V)>,
}

impl<V> View for ItemTable<V> {
    type V = Map<(ItemKind, u64, Seq<char>), V>;

    closed spec fn view(&self) -> Self::V {
        entries_map(self.entries@)
    }
}

impl<V> ItemTable<V> {
    #[verifier::type_invariant]
    spec fn entries_unique(self) -> bool {
        keys_unique(self.entries@)
    }

    /// An empty table.
    pub fn new() -> (res: Self)
        ensures
            res@ == Map::<(ItemKind, u64, Seq<char>), V>::empty(),
    {
        let res = ItemTable { entries: Vec::new() };
        assert(res@ =~= Map::<(ItemKind, u64, Seq<char>), V>::empty());
        res
    }

    fn position(&self, item: &MediaItem) -> (res: Option<usize>)
        ensures
            match res {
                Some(i) => i < self.entries@.len() && item_key(self.entries@[i as int].0) == item_key(*item),
                None => !has_entry(self.entries@, item_key(*item)),
            },
    {
        let mut i: usize = 0;
        while i < self.entries.len()
            invariant
                i <= self.entries@.len(),
                forall|j: int| 0 <= j < i ==> item_key(#[trigger] self.entries@[j].0) != item_key(*item),
            decreases self.entries.len() - i,
        {
            if key_matches(&self.entries[i].0, item) {
                return Some(i);
            }
            i = i + 1;
        }
        None
    }

    /// Puts `value` under `item`, in place of any value it had.
    pub fn insert(&mut self, item: MediaItem, value: V)
        ensures
            final(self)@ == old(self)@.insert(item_key(item), value),
    {
        proof {
            use_type_invariant(&*self);
        }
        let ghost before = self.entries@;
        let ghost k = item_key(item);
        let pos = self.position(&item);
        let entry = (item, value);
        let mut entries = Vec::new();
        std::mem::swap(&mut entries, &mut self.entries);
        match pos {
            Some(i) => {
                entries.set(i, entry);
                let ghost after = entries@;
                assert(keys_unique(after)) by {
                    assert forall|a: int, b: int|
                        0 <= a < after.len() && 0 <= b < after.len() && a != b implies item_key(#[trigger] after[a].0)
                        != item_key(#[trigger] after[b].0) by {
                        if a != i && b != i {
                            assert(after[a] == before[a] && after[b] == before[b]);
                        } else if a == i {
                            assert(after[b] == before[b]);
                        } else {
                            assert(after[a] == before[a]);
                        }
                    }
                }
                self.entries = entries;
                proof {
                    assert(after[i as int].0 == item);
                    assert forall|kk: (ItemKind, u64, Seq<char>)| has_entry(after, kk) == (has_entry(before, kk) || kk == k) by {
                        if has_entry(before, kk) {
                            let j = entry_index(before, kk);
                            if j == i {
                                assert(kk == k);
                            } else {
                                assert(after[j] == before[j]);
                            }
                        }
                        if has_entry(after, kk) {
                            let j = entry_index(after, kk);
                            if j != i {
                                assert(after[j] == before[j]);
                            }
                        }
                    }
                    assert(entry_index(after, k) == i as int);
                    assert forall|kk: (ItemKind, u64, Seq<char>)| kk != k && old(self)@.contains_key(kk) implies self@[kk]
                        == old(self)@[kk] by {
                        let j = entry_index(before, kk);
                        assert(j != i);
                        assert(after[j] == before[j]);
                        assert(entry_index(after, kk) == j);
                    }
                    assert(self@ =~= old(self)@.insert(k, value));
                }
            },
            None => {
                entries.push(entry);
                let ghost after = entries@;
                let ghost n = before.len() as int;
                assert(keys_unique(after)) by {
                    assert forall|a: int, b: int|
                        0 <= a < after.len() && 0 <= b < after.len() && a != b implies item_key(#[trigger] after[a].0)
                        != item_key(#[trigger] after[b].0) by {
                        if a < n && b < n {
                            assert(after[a] == before[a] && after[b] == before[b]);
                        } else if a == n {
                            assert(after[b] == before[b]);
                        } else {
                            assert(after[a] == before[a]);
                        }
                    }
                }
                self.entries = entries;
                proof {
                    assert(after[n].0 == item);
                    assert forall|kk: (ItemKind, u64, Seq<char>)| has_entry(after, kk) == (has_entry(before, kk) || kk == k) by {
                        if has_entry(before, kk) {
                            let j = entry_index(before, kk);
                            assert(after[j] == before[j]);
                        }
                        if has_entry(after, kk) {
                            let j = entry_index(after, kk);
                            if j != n {
                                assert(after[j] == before[j]);
                            }
                        }
                    }
                    assert(entry_index(after, k) == n);
                    assert forall|kk: (ItemKind, u64, Seq<char>)| kk != k && old(self)@.contains_key(kk) implies self@[kk]
                        == old(self)@[kk] by {
                        let j = entry_index(before, kk);
                        assert(after[j] == before[j]);
                        assert(entry_index(after, kk) == j);
                    }
                    assert(self@ =~= old(self)@.insert(k, value));
                }
            },
        }
    }

    /// The value under an item, if any.
    pub fn get(&self, item: &MediaItem) -> (res: Option<&V>)
        ensures
            match res {
                Some(v) => self@.contains_key(item_key(*item)) && *v == self@[item_key(*item)],
                None => !self@.contains_key(item_key(*item)),
            },
    {
        proof {
            use_type_invariant(self);
        }
        match self.position(item) {
            Some(i) => {
                assert(entry_index(self.entries@, item_key(*item)) == i as int);
                Some(&self.entries[i].1)
            },
            None => None,
        }
    }
}

/// Putting a value under an item and then looking the item up gives that
/// value; the values under other items stay as they were.
pub proof fn lemma_get_after_insert<V>(table: Map<(ItemKind, u64, Seq<char>), V>, item: MediaItem, value: V, other: MediaItem)
    ensures
        table.insert(item_key(item), value).contains_key(item_key(item)),
        table.insert(item_key(item), value)[item_key(item)] == value,
        item_key(other) != item_key(item) ==> table.insert(item_key(item), value).contains_key(item_key(other))
            == table.contains_key(item_key(other)),
        item_key(other) != item_key(item) && table.contains_key(item_key(other)) ==> table.insert(item_key(item), value)[item_key(other)]
            == table[item_key(other)],
{
}

} // verus!
