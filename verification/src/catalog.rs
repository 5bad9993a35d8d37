//! A catalog of the media found: movies, shows, their episodes, and the
//! entries that could not be read as media.
use vstd::prelude::*;
use std::sync::Arc;

use crate::config::Config;
use crate::media_item::{Episode, MediaCreateError, MediaItem, Movie, Show};
use crate::sorting::{is_stable_order, stable_sort_order};
use crate::text::chars_of;

verus! {

/// `Arc::clone` from std: another handle to the same shared value.
#[verifier::external_body]
pub(crate) fn share<T>(item: &Arc<T>) -> (res: Arc<T>)
    ensures
        res == *item,
{
    Arc::clone(item)
}

/// An entry that could not be read as a media item, and why.
#[derive(Debug, Clone)]
pub struct CatalogFailure {
    pub err: MediaCreateError,
    pub buf: String,
}

/// The media of the configured directories.
pub struct Catalog {
    pub config: Arc<Config>,
    pub movies: Vec<Arc<Movie>>,
    pub shows: Vec<Arc<Show>>,
    pub episodes: Vec<Arc<Episode>>,
    pub failures: Vec<CatalogFailure>,
}

/// Movies as media items.
pub open spec fn movie_items(movies: Seq<Arc<Movie>>) -> Seq<MediaItem> {
    movies.map_values(|m: Arc<Movie>| MediaItem::Movie(m))
}

/// Shows as media items.
pub open spec fn show_items(shows: Seq<Arc<Show>>) -> Seq<MediaItem> {
    shows.map_values(|s: Arc<Show>| MediaItem::Show(s))
}

/// The items of `items` in the order in which `order` lists their positions.
pub open spec fn reordered<T>(items: Seq<T>, order: Seq<usize>) -> Seq<T> {
    order.map_values(|i: usize| items[i as int])
}

/// What an item is sorted by: the title that an answered query gave, else its
/// search term.
pub open spec fn sort_key(title: Option<String>, search_term: String) -> Seq<char> {
    match title {
        Some(t) => t@,
        None => search_term@,
    }
}

pub open spec fn movie_keys(movies: Seq<Arc<Movie>>, titles: Seq<Option<String>>) -> Seq<Seq<char>> {
    Seq::new(movies.len(), |i: int| sort_key(titles[i], movies[i].search_term))
}

pub open spec fn show_keys(shows: Seq<Arc<Show>>, titles: Seq<Option<String>>) -> Seq<Seq<char>> {
    Seq::new(shows.len(), |i: int| sort_key(titles[i], shows[i].search_term))
}

fn key_chars(title: &Option<String>, search_term: &String) -> (res: Vec<char>)
    ensures
        res@ == sort_key(*title, *search_term),
{
    match title {
        Some(t) => chars_of(t.as_str()),
        None => chars_of(search_term.as_str()),
    }
}

fn push_movies(out: &mut Vec<MediaItem>, movies: &Vec<Arc<Movie>>, order: &Vec<usize>)
    requires
        forall|k: int| 0 <= k < order@.len() ==> #[trigger] order@[k] < movies@.len(),
    ensures
        final(out)@ == old(out)@ + movie_items(reordered(movies@, order@)),
{
    let ghost start = out@;
    let mut k: usize = 0;
    while k < order.len()
        invariant
            k <= order@.len(),
            forall|j: int| 0 <= j < order@.len() ==> #[trigger] order@[j] < movies@.len(),
            out@ == start + movie_items(reordered(movies@, order@)).subrange(0, k as int),
        decreases order.len() - k,
    {
        let i = order[k];
        out.push(MediaItem::Movie(share(&movies[i])));
        assert(movie_items(reordered(movies@, order@)).subrange(0, k + 1) =~= movie_items(
            reordered(movies@, order@),
        ).subrange(0, k as int).push(MediaItem::Movie(movies@[i as int])));
        k = k + 1;
    }
    assert(movie_items(reordered(movies@, order@)).subrange(0, k as int) =~= movie_items(
        reordered(movies@, order@),
    ));
}

fn push_shows(out: &mut Vec<MediaItem>, shows: &Vec<Arc<Show>>, order: &Vec<usize>)
    requires
        forall|k: int| 0 <= k < order@.len() ==> #[trigger] order@[k] < shows@.len(),
    ensures
        final(out)@ == old(out)@ + show_items(reordered(shows@, order@)),
{
    let ghost start = out@;
    let mut k: usize = 0;
    while k < order.len()
        invariant
            k <= order@.len(),
            forall|j: int| 0 <= j < order@.len() ==> #[trigger] order@[j] < shows@.len(),
            out@ == start + show_items(reordered(shows@, order@)).subrange(0, k as int),
        decreases order.len() - k,
    {
        let i = order[k];
        out.push(MediaItem::Show(share(&shows[i])));
        assert(show_items(reordered(shows@, order@)).subrange(0, k + 1) =~= show_items(
            reordered(shows@, order@),
        ).subrange(0, k as int).push(MediaItem::Show(shows@[i as int])));
        k = k + 1;
    }
    assert(show_items(reordered(shows@, order@)).subrange(0, k as int) =~= show_items(
        reordered(shows@, order@),
    ));
}

impl Catalog {
    /// All movies.
    pub fn iter_movies(&self) -> (res: Vec<Arc<Movie>>)
        ensures
            res@ == self.movies@,
    {
        let mut out: Vec<Arc<Movie>> = Vec::new();
        let mut i: usize = 0;
        while i < self.movies.len()
            invariant
                i <= self.movies@.len(),
                out@ == self.movies@.subrange(0, i as int),
            decreases self.movies.len() - i,
        {
            out.push(share(&self.movies[i]));
            i = i + 1;
        }
        out
    }

    /// All shows.
    pub fn iter_shows(&self) -> (res: Vec<Arc<Show>>)
        ensures
            res@ == self.shows@,
    {
        let mut out: Vec<Arc<Show>> = Vec::new();
        let mut i: usize = 0;
        while i < self.shows.len()
            invariant
                i <= self.shows@.len(),
                out@ == self.shows@.subrange(0, i as int),
            decreases self.shows.len() - i,
        {
            out.push(share(&self.shows[i]));
            i = i + 1;
        }
        out
    }

    /// All movies, then all shows.
    pub fn iter_all(&self) -> (res: Vec<MediaItem>)
        ensures
            res@ == movie_items(self.movies@) + show_items(self.shows@),
    {
        let mut out: Vec<MediaItem> = Vec::new();
        let mut order: Vec<usize> = Vec::new();
        let mut i: usize = 0;
        while i < self.movies.len()
            invariant
                i <= self.movies@.len(),
                order@.len() == i,
                forall|k: int| 0 <= k < i ==> order@[k] == k,
            decreases self.movies.len() - i,
        {
            order.push(i);
            i = i + 1;
        }
        push_movies(&mut out, &self.movies, &order);
        assert(reordered(self.movies@, order@) =~= self.movies@);
        let mut order: Vec<usize> = Vec::new();
        let mut i: usize = 0;
        while i < self.shows.len()
            invariant
                i <= self.shows@.len(),
                order@.len() == i,
                forall|k: int| 0 <= k < i ==> order@[k] == k,
            decreases self.shows.len() - i,
        {
            order.push(i);
            i = i + 1;
        }
        push_shows(&mut out, &self.shows, &order);
        assert(reordered(self.shows@, order@) =~= self.shows@);
        out
    }

    /// All movies, then all shows, each group sorted (stably) by its titles:
    /// `movie_titles[i]` is the title a query found for movie `i`, if it has
    /// answered; without one the search term stands in.
    pub fn iter_all_sorted(
        &self,
        movie_titles: &Vec<Option<String>>,
        show_titles: &Vec<Option<String>>,
    ) -> (res: Vec<MediaItem>)
        requires
            movie_titles@.len() == self.movies@.len(),
            show_titles@.len() == self.shows@.len(),
        ensures
            exists|mo: Seq<usize>, so: Seq<usize>|
                #![trigger is_stable_order(movie_keys(self.movies@, movie_titles@), mo), is_stable_order(show_keys(self.shows@, show_titles@), so)]
                is_stable_order(movie_keys(self.movies@, movie_titles@), mo) && is_stable_order(
                    show_keys(self.shows@, show_titles@),
                    so,
                ) && res@ == movie_items(reordered(self.movies@, mo)) + show_items(
                    reordered(self.shows@, so),
                ),
    {
        let mut mkeys: Vec<Vec<char>> = Vec::new();
        let mut i: usize = 0;
        while i < self.movies.len()
            invariant
                i <= self.movies@.len(),
                movie_titles@.len() == self.movies@.len(),
                mkeys@.len() == i,
                forall|k: int|
                    0 <= k < i ==> (#[trigger] mkeys@[k])@ == sort_key(
                        movie_titles@[k],
                        self.movies@[k].search_term,
                    ),
            decreases self.movies.len() - i,
        {
            mkeys.push(key_chars(&movie_titles[i], &self.movies[i].search_term));
            i = i + 1;
        }
        let mut skeys: Vec<Vec<char>> = Vec::new();
        let mut i: usize = 0;
        while i < self.shows.len()
            invariant
                i <= self.shows@.len(),
                show_titles@.len() == self.shows@.len(),
                skeys@.len() == i,
                forall|k: int|
                    0 <= k < i ==> (#[trigger] skeys@[k])@ == sort_key(
                        show_titles@[k],
                        self.shows@[k].search_term,
                    ),
            decreases self.shows.len() - i,
        {
            skeys.push(key_chars(&show_titles[i], &self.shows[i].search_term));
            i = i + 1;
        }
        let morder = stable_sort_order(&mkeys);
        let sorder = stable_sort_order(&skeys);
        assert(mkeys@.map_values(|k: Vec<char>| k@) =~= movie_keys(self.movies@, movie_titles@));
        assert(skeys@.map_values(|k: Vec<char>| k@) =~= show_keys(self.shows@, show_titles@));
        let mut out: Vec<MediaItem> = Vec::new();
        push_movies(&mut out, &self.movies, &morder);
        push_shows(&mut out, &self.shows, &sorder);
        assert(is_stable_order(movie_keys(self.movies@, movie_titles@), morder@));
        assert(is_stable_order(show_keys(self.shows@, show_titles@), sorder@));
        out
    }
}

} // verus!
