//! The results of the queries made for a catalog's items, by item, and whether
//! the queries may go out.
use vstd::prelude::*;
use std::sync::Arc;

use crate::api_client::QueryStatus;
use crate::catalog::share;
use crate::media_item::{MediaItem, Movie, Show};
use crate::item_table::{item_key, ItemKind, ItemTable};
use crate::paths::opt_view;

verus! {

/// A query that has come back: the item asked about and the answer.
pub struct ApiCall {
    pub item: MediaItem,
    pub status: QueryStatus,
}

/// The status of each item's query, and whether the queries may go out.
pub struct ApiManifest {
    api_results: ItemTable<Arc<QueryStatus>>,
    released: bool,
}

/// The status `mark_all` records.
pub open spec fn marked_status(in_progress: bool) -> QueryStatus {
    if in_progress {
        QueryStatus::InProgress
    } else {
        QueryStatus::NotStarted
    }
}

/// `after` is `before` with each of `items` given `status`: their keys are
/// added, and every other item keeps what it had.
pub open spec fn marked(
    before: Map<(ItemKind, u64, Seq<char>), Arc<QueryStatus>>,
    after: Map<(ItemKind, u64, Seq<char>), Arc<QueryStatus>>,
    items: Seq<MediaItem>,
    status: QueryStatus,
) -> bool {
    &&& forall|k: (ItemKind, u64, Seq<char>)|
        #![trigger after.contains_key(k)]
        after.contains_key(k) <==> (before.contains_key(k) || exists|i: int|
            0 <= i < items.len() && item_key(#[trigger] items[i]) == k)
    &&& forall|i: int| 0 <= i < items.len() ==> after[item_key(#[trigger] items[i])] == status
    &&& forall|k: (ItemKind, u64, Seq<char>)|
        before.contains_key(k) && !(exists|i: int| 0 <= i < items.len() && item_key(#[trigger] items[i]) == k)
            ==> after[k] == before[k]
}

/// The title that the answer recorded under `k` found, if the query succeeded.
pub open spec fn answered_title(results: Map<(ItemKind, u64, Seq<char>), Arc<QueryStatus>>, k: (ItemKind, u64, Seq<char>)) -> Option<Seq<char>> {
    if results.contains_key(k) {
        match *results[k] {
            QueryStatus::Success(r) => Some(r.title@),
            _ => None,
        }
    } else {
        None
    }
}

/// The sort keys of movies by the answers recorded: the title found, else
/// the search term.
pub open spec fn answered_movie_keys(movies: Seq<Arc<Movie>>, results: Map<(ItemKind, u64, Seq<char>), Arc<QueryStatus>>) -> Seq<Seq<char>> {
    Seq::new(
        movies.len(),
        |i: int|
            match answered_title(results, (ItemKind::Movie, movies[i].uid, movies[i].src@)) {
                Some(t) => t,
                None => movies[i].search_term@,
            },
    )
}

/// The sort keys of shows by the answers recorded.
pub open spec fn answered_show_keys(shows: Seq<Arc<Show>>, results: Map<(ItemKind, u64, Seq<char>), Arc<QueryStatus>>) -> Seq<Seq<char>> {
    Seq::new(
        shows.len(),
        |i: int|
            match answered_title(results, (ItemKind::Show, shows[i].uid, shows[i].src@)) {
                Some(t) => t,
                None => shows[i].search_term@,
            },
    )
}

impl View for ApiManifest {
    type V = Map<(ItemKind, u64, Seq<char>), Arc<QueryStatus>>;

    closed spec fn view(&self) -> Self::V {
        self.api_results@
    }
}

impl ApiManifest {
    /// Whether the queries may go out.
    pub closed spec fn sending(self) -> bool {
        self.released
    }

    /// No results, and the queries held back.
    pub fn new() -> (res: Self)
        ensures
            res@ == Map::<(ItemKind, u64, Seq<char>), Arc<QueryStatus>>::empty(),
            !res.sending(),
    {
        ApiManifest { api_results: ItemTable::new(), released: false }
    }

    /// Lets the queries go out.
    pub fn send(&mut self)
        ensures
            final(self)@ == old(self)@,
            final(self).sending(),
    {
        self.released = true;
    }

    /// Whether the queries may go out: until `send`, the stream of answers
    /// gives none.
    pub fn is_released(&self) -> (res: bool)
        ensures
            res == self.sending(),
    {
        self.released
    }

    /// Records the answer to an item's query, in place of any earlier one.
    /// Items are told apart by their key (`item_key`): every other key keeps
    /// what it had. The items of one catalog never share a key.
    pub fn update_api_call(&mut self, call: ApiCall)
        ensures
            final(self)@.dom() == old(self)@.dom().insert(item_key(call.item)),
            final(self)@[item_key(call.item)] == call.status,
            forall|k: (ItemKind, u64, Seq<char>)| k != item_key(call.item) && old(self)@.contains_key(k) ==> final(self)@[k] == old(self)@[k],
            final(self).sending() == old(self).sending(),
    {
        let ApiCall { item, status } = call;
        self.api_results.insert(item, Arc::new(status));
    }

    fn title_of(&self, item: &MediaItem) -> (res: Option<String>)
        ensures
            opt_view(res) == answered_title(self@, item_key(*item)),
    {
        match self.get(item) {
            Some(s) => match &**s {
                QueryStatus::Success(r) => Some(r.title.clone()),
                _ => None,
            },
            None => None,
        }
    }

    /// The title each movie's query found, where it answered with one: the
    /// sort keys of the movies, with the search term standing in for `None`.
    pub fn movie_titles(&self, movies: &Vec<Arc<Movie>>) -> (res: Vec<Option<String>>)
        ensures
            res@.len() == movies@.len(),
            forall|i: int| 0 <= i < movies@.len() ==> opt_view(#[trigger] res@[i]) == answered_title(self@, (ItemKind::Movie, movies@[i].uid, movies@[i].src@)),
    {
        let mut out: Vec<Option<String>> = Vec::new();
        let mut i: usize = 0;
        while i < movies.len()
            invariant
                i <= movies@.len(),
                out@.len() == i,
                forall|j: int| 0 <= j < i ==> opt_view(#[trigger] out@[j]) == answered_title(self@, (ItemKind::Movie, movies@[j].uid, movies@[j].src@)),
            decreases movies.len() - i,
        {
            let item = MediaItem::Movie(share(&movies[i]));
            out.push(self.title_of(&item));
            i = i + 1;
        }
        out
    }

    /// The title each show's query found, where it answered with one.
    pub fn show_titles(&self, shows: &Vec<Arc<Show>>) -> (res: Vec<Option<String>>)
        ensures
            res@.len() == shows@.len(),
            forall|i: int| 0 <= i < shows@.len() ==> opt_view(#[trigger] res@[i]) == answered_title(self@, (ItemKind::Show, shows@[i].uid, shows@[i].src@)),
    {
        let mut out: Vec<Option<String>> = Vec::new();
        let mut i: usize = 0;
        while i < shows.len()
            invariant
                i <= shows@.len(),
                out@.len() == i,
                forall|j: int| 0 <= j < i ==> opt_view(#[trigger] out@[j]) == answered_title(self@, (ItemKind::Show, shows@[j].uid, shows@[j].src@)),
            decreases shows.len() - i,
        {
            let item = MediaItem::Show(share(&shows[i]));
            out.push(self.title_of(&item));
            i = i + 1;
        }
        out
    }

    /// The status recorded for each item, `None` where there is none.
    pub fn statuses(&self, items: &Vec<MediaItem>) -> (res: Vec<Option<Arc<QueryStatus>>>)
        ensures
            res@.len() == items@.len(),
            forall|i: int|
                0 <= i < items@.len() ==> match #[trigger] res@[i] {
                    Some(s) => self@.contains_key(item_key(items@[i])) && s == self@[item_key(items@[i])],
                    None => !self@.contains_key(item_key(items@[i])),
                },
    {
        let mut out: Vec<Option<Arc<QueryStatus>>> = Vec::new();
        let mut i: usize = 0;
        while i < items.len()
            invariant
                i <= items@.len(),
                out@.len() == i,
                forall|j: int|
                    0 <= j < i ==> match #[trigger] out@[j] {
                        Some(s) => self@.contains_key(item_key(items@[j])) && s == self@[item_key(items@[j])],
                        None => !self@.contains_key(item_key(items@[j])),
                    },
            decreases items.len() - i,
        {
            let status = match self.get(&items[i]) {
                Some(s) => Some(share(s)),
                None => None,
            };
            out.push(status);
            i = i + 1;
        }
        out
    }

    fn mark_all(&mut self, items: &Vec<MediaItem>, in_progress: bool)
        ensures
            final(self).sending() == old(self).sending(),
            forall|k: (ItemKind, u64, Seq<char>)|
                #![trigger final(self)@.contains_key(k)]
                final(self)@.contains_key(k) <==> (old(self)@.contains_key(k) || exists|i: int|
                    0 <= i < items@.len() && item_key(#[trigger] items@[i]) == k),
            forall|i: int| 0 <= i < items@.len() ==> final(self)@[item_key(#[trigger] items@[i])] == marked_status(in_progress),
            forall|k: (ItemKind, u64, Seq<char>)|
                old(self)@.contains_key(k) && !(exists|i: int| 0 <= i < items@.len() && item_key(#[trigger] items@[i]) == k)
                    ==> final(self)@[k] == old(self)@[k],
    {
        let mut i: usize = 0;
        while i < items.len()
            invariant
                i <= items@.len(),
                self.sending() == old(self).sending(),
                forall|k: (ItemKind, u64, Seq<char>)|
                    #![trigger self@.contains_key(k)]
                    self@.contains_key(k) <==> (old(self)@.contains_key(k) || exists|j: int|
                        0 <= j < i && item_key(#[trigger] items@[j]) == k),
                forall|j: int| 0 <= j < i ==> self@[item_key(#[trigger] items@[j])] == marked_status(in_progress),
                forall|k: (ItemKind, u64, Seq<char>)|
                    old(self)@.contains_key(k) && !(exists|j: int| 0 <= j < i && item_key(#[trigger] items@[j]) == k)
                        ==> self@[k] == old(self)@[k],
            decreases items.len() - i,
        {
            let item = match &items[i] {
                MediaItem::Movie(m) => MediaItem::Movie(share(m)),
                MediaItem::Show(s) => MediaItem::Show(share(s)),
                MediaItem::Episode(e) => MediaItem::Episode(share(e)),
            };
            let ghost before = self@;
            let status = if in_progress {
                QueryStatus::InProgress
            } else {
                QueryStatus::NotStarted
            };
            self.update_api_call(ApiCall { item, status });
            proof {
                assert forall|k: (ItemKind, u64, Seq<char>)|
                    #![trigger self@.contains_key(k)]
                    self@.contains_key(k) <==> (old(self)@.contains_key(k) || exists|j: int|
                        0 <= j < i + 1 && item_key(#[trigger] items@[j]) == k) by {
                    if k == item_key(items@[i as int]) {
                        assert(0 <= i < i + 1 && item_key(items@[i as int]) == k);
                    }
                    if exists|j: int| 0 <= j < i + 1 && item_key(#[trigger] items@[j]) == k {
                        let j = choose|j: int| 0 <= j < i + 1 && item_key(#[trigger] items@[j]) == k;
                        if j < i {
                            assert(before.contains_key(k));
                        }
                    }
                }
                assert forall|j: int| 0 <= j < i + 1 implies self@[item_key(#[trigger] items@[j])] == marked_status(in_progress) by {
                    if j < i && item_key(items@[j]) != item_key(items@[i as int]) {
                        assert(before.contains_key(item_key(items@[j])));
                    }
                }
                assert forall|k: (ItemKind, u64, Seq<char>)|
                    old(self)@.contains_key(k) && !(exists|j: int| 0 <= j < i + 1 && item_key(#[trigger] items@[j]) == k)
                        implies self@[k] == old(self)@[k] by {
                    assert(!(0 <= i < i + 1 && item_key(items@[i as int]) == k));
                    assert(!(exists|j: int| 0 <= j < i && item_key(#[trigger] items@[j]) == k));
                    assert(before.contains_key(k));
                }
            }
            i = i + 1;
        }
    }

    /// Lets the queries go out and marks each of `items` as in progress.
    pub fn send_all(&mut self, items: &Vec<MediaItem>)
        ensures
            final(self).sending(),
            marked(old(self)@, final(self)@, items@, QueryStatus::InProgress),
    {
        self.send();
        self.mark_all(items, true);
    }

    /// Registers each of `items` as not yet queried.
    pub fn register_all(&mut self, items: &Vec<MediaItem>)
        ensures
            final(self).sending() == old(self).sending(),
            marked(old(self)@, final(self)@, items@, QueryStatus::NotStarted),
    {
        self.mark_all(items, false);
    }

    /// The status recorded for an item, if any.
    pub fn get(&self, item: &MediaItem) -> (res: Option<&Arc<QueryStatus>>)
        ensures
            match res {
                Some(s) => self@.contains_key(item_key(*item)) && *s == self@[item_key(*item)],
                None => !self@.contains_key(item_key(*item)),
            },
    {
        self.api_results.get(item)
    }
}

} // verus!
