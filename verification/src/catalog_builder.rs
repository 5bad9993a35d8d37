//! Building a catalog from the configured directories. The directory walks
//! themselves are the caller's: this module says which walks to make, which
//! entries to keep, what to report, and what each kept entry becomes.
use vstd::prelude::*;
use std::sync::Arc;

use crate::catalog::{movie_items, share, show_items, Catalog, CatalogFailure};
use crate::item_table::{item_key, keys_distinct};
use crate::config::Config;
use crate::media_item::{media_create_error_name, MediaCreateError, MediaItem, Movie, Show};
use crate::pattern::{regex_compiles, regex_is_match, Pattern};
use crate::text::{chars_of, contains_str, contains_text, extend_str, string_from_chars};

verus! {

/// Why a catalog could not be built.
#[derive(Debug)]
pub enum CatalogBuildError {
    EnvVarNotSet,
    /// The variable's raw bytes.
    EnvVarNotUnicode(Vec<u8>),
    RegexError(regex::Error),
}

impl From<regex::Error> for CatalogBuildError {
    fn from(value: regex::Error) -> (res: Self) {
        CatalogBuildError::RegexError(value)
    }
}

impl vstd::std_specs::convert::FromSpecImpl<regex::Error> for CatalogBuildError {
    open spec fn obeys_from_spec() -> bool {
        true
    }

    open spec fn from_spec(v: regex::Error) -> Self {
        CatalogBuildError::RegexError(v)
    }
}

/// What the entries of a walk are read as.
#[derive(Debug, Clone, Copy, PartialEq, Eq, Structural)]
pub enum ParseAs {
    Movie,
    Show,
}

pub open spec fn parse_label(parse: ParseAs) -> Seq<char> {
    match parse {
        ParseAs::Movie => "[Movie]  "@,
        ParseAs::Show => "[Show]   "@,
    }
}

impl ParseAs {
    /// The label that starts each status message about such an entry.
    pub fn label(&self) -> (res: &'static str)
        ensures
            res@ == parse_label(*self),
    {
        match self {
            ParseAs::Movie => "[Movie]  ",
            ParseAs::Show => "[Show]   ",
        }
    }

    /// Movies are files, shows are directories.
    pub open spec fn accepts_spec(self, is_file: bool, is_dir: bool) -> bool {
        match self {
            ParseAs::Movie => is_file,
            ParseAs::Show => is_dir,
        }
    }

    /// Movies are files, shows are directories; other entries are passed over.
    pub fn accepts(&self, is_file: bool, is_dir: bool) -> (res: bool)
        ensures
            res == self.accepts_spec(is_file, is_dir),
    {
        match self {
            ParseAs::Movie => is_file,
            ParseAs::Show => is_dir,
        }
    }
}

/// The filter a walk applies to the names of its entries (a walk keeps one).
#[derive(Debug, Clone, Copy, PartialEq, Eq, Structural)]
pub enum EntryFilter {
    Nothing,
    /// Keeps names without an ignore marker.
    Unignored,
    /// Keeps names that the configured video pattern matches.
    Video,
    /// Keeps names that the configured video pattern matches and that hold
    /// no ignore marker.
    UnignoredVideo,
}

/// A directory walk to make: entries between the two depths below `root`,
/// those whose names (and whose ancestors' names from `min_depth` on) the
/// filter keeps, read as `parse` says.
#[derive(Debug, Clone)]
pub struct WalkPlan {
    pub root: String,
    pub min_depth: usize,
    pub max_depth: usize,
    pub filter: EntryFilter,
    pub parse: ParseAs,
}

/// A name marked to be passed over: it holds `ignore` or `temp`.
pub open spec fn has_ignore_marker(name: Seq<char>) -> bool {
    contains_text(name, "ignore"@) || contains_text(name, "temp"@)
}

fn name_has_ignore_marker(name: &str) -> (res: bool)
    ensures
        res == has_ignore_marker(name@),
{
    let chars = chars_of(name);
    proof {
        reveal_strlit("ignore");
        reveal_strlit("temp");
    }
    contains_str(&chars, "ignore") || contains_str(&chars, "temp")
}

/// `word` is written in `name` starting at `i`, character for character
/// (so in the case it is written in).
pub open spec fn written_at(name: Seq<char>, word: Seq<char>, i: int) -> bool {
    0 <= i && i + word.len() <= name.len() && forall|j: int|
        0 <= j < word.len() ==> #[trigger] name[i + j] == word[j]
}

/// A name is marked to be passed over exactly when the lowercase word
/// `ignore` or `temp` is written in it as it stands: the check is case
/// sensitive, so `Temple` or `TEMP` is no marker, while `template` and
/// `tempo` are. The filters that skip marked names therefore keep every name
/// in which neither word is written in lowercase.
pub proof fn lemma_ignore_marker_is_a_lowercase_word(video: Seq<char>, name: Seq<char>)
    ensures
        has_ignore_marker(name) <==> (exists|i: int| written_at(name, seq!['i', 'g', 'n', 'o', 'r', 'e'], i))
            || (exists|i: int| written_at(name, seq!['t', 'e', 'm', 'p'], i)),
        filter_keeps(EntryFilter::Unignored, video, name) <==> !(exists|i: int|
            written_at(name, seq!['i', 'g', 'n', 'o', 'r', 'e'], i)) && !(exists|i: int|
            written_at(name, seq!['t', 'e', 'm', 'p'], i)),
        filter_keeps(EntryFilter::UnignoredVideo, video, name) <==> regex_is_match(video, name)
            && !(exists|i: int| written_at(name, seq!['i', 'g', 'n', 'o', 'r', 'e'], i)) && !(exists|i: int|
            written_at(name, seq!['t', 'e', 'm', 'p'], i)),
{
    reveal_strlit("ignore");
    reveal_strlit("temp");
    let ig = seq!['i', 'g', 'n', 'o', 'r', 'e'];
    let tp = seq!['t', 'e', 'm', 'p'];
    assert("ignore"@ =~= ig);
    assert("temp"@ =~= tp);
    assert forall|w: Seq<char>, i: int| crate::text::occurs_at(name, w, i) <==> written_at(name, w, i) by {
        lemma_occurs_at_is_written_at(name, w, i);
    }
}

/// `occurs_at` is `word` written in `name` at `i`, character for character.
pub proof fn lemma_occurs_at_is_written_at(name: Seq<char>, w: Seq<char>, i: int)
    ensures
        crate::text::occurs_at(name, w, i) <==> written_at(name, w, i),
{
    if 0 <= i && i + w.len() <= name.len() {
        if name.subrange(i, i + w.len()) == w {
            assert forall|j: int| 0 <= j < w.len() implies #[trigger] name[i + j] == w[j] by {
                assert(name.subrange(i, i + w.len())[j] == name[i + j]);
            }
        }
        if forall|j: int| 0 <= j < w.len() ==> #[trigger] name[i + j] == w[j] {
            assert forall|j: int| 0 <= j < w.len() implies name.subrange(i, i + w.len())[j] == w[j] by {
                assert(name[i + j] == w[j]);
            }
            assert(name.subrange(i, i + w.len()) =~= w);
        }
    }
}

/// The filters of a build, with the compiled video pattern.
pub struct EntryFilters {
    pub video: Pattern,
}

/// Whether `filter` keeps an entry named `name`, with `video` the source of
/// the video pattern.
pub open spec fn filter_keeps(filter: EntryFilter, video: Seq<char>, name: Seq<char>) -> bool {
    match filter {
        EntryFilter::Nothing => true,
        EntryFilter::Unignored => !has_ignore_marker(name),
        EntryFilter::Video => regex_is_match(video, name),
        EntryFilter::UnignoredVideo => regex_is_match(video, name) && !has_ignore_marker(name),
    }
}

impl WalkPlan {
    /// Whether the walk keeps (and goes below) an entry at `depth` named
    /// `name`: the directories it passes through on the way to the depths it
    /// reads are kept; from `min_depth` on, the filter decides.
    pub fn keeps_entry(&self, filters: &EntryFilters, depth: usize, name: &str) -> (res: bool)
        ensures
            res == (depth < self.min_depth || filter_keeps(self.filter, filters.video.source_text(), name@)),
    {
        if depth < self.min_depth {
            true
        } else {
            filters.keeps(&self.filter, name)
        }
    }
}

impl EntryFilters {
    /// Whether `filter` keeps an entry named `name`.
    pub fn keeps(&self, filter: &EntryFilter, name: &str) -> (res: bool)
        ensures
            res == filter_keeps(*filter, self.video.source_text(), name@),
    {
        match filter {
            EntryFilter::Nothing => true,
            EntryFilter::Unignored => !name_has_ignore_marker(name),
            EntryFilter::Video => self.video.is_match(name),
            EntryFilter::UnignoredVideo => self.video.is_match(name) && !name_has_ignore_marker(name),
        }
    }
}

/// An entry that a walk gave: its path when it is Unicode, the path as shown
/// (lossily) otherwise, its file name, and what it is.
#[derive(Debug, Clone)]
pub struct WalkedEntry {
    pub path: Option<String>,
    pub shown_path: String,
    pub name: String,
    pub is_file: bool,
    pub is_dir: bool,
}

/// The texts of some strings.
pub open spec fn message_texts(v: Seq<String>) -> Seq<Seq<char>> {
    v.map_values(|m: String| m@)
}

/// Collects the media items of the walks, and the entries that failed.
pub struct CatalogBuilder {
    pub config: Arc<Config>,
    pub movies: Vec<Arc<Movie>>,
    pub shows: Vec<Arc<crate::media_item::Show>>,
    pub episodes: Vec<Arc<crate::media_item::Episode>>,
    pub fails: Vec<CatalogFailure>,
    /// The identity the next item made gets.
    pub next_uid: u64,
}

/// Two items a builder has made are never the same item: no two share a
/// key.
pub proof fn lemma_builder_keys_distinct(b: CatalogBuilder)
    requires
        b.uids_fresh(),
    ensures
        keys_distinct(movie_items(b.movies@) + show_items(b.shows@)),
{
    let items = movie_items(b.movies@) + show_items(b.shows@);
    let m = b.movies@.len() as int;
    assert forall|i: int, j: int|
        0 <= i < items.len() && 0 <= j < items.len() && i != j implies item_key(#[trigger] items[i])
            != item_key(#[trigger] items[j]) by {
        if i < m {
            assert(items[i] == MediaItem::Movie(b.movies@[i]));
        } else {
            assert(items[i] == MediaItem::Show(b.shows@[i - m]));
        }
        if j < m {
            assert(items[j] == MediaItem::Movie(b.movies@[j]));
        } else {
            assert(items[j] == MediaItem::Show(b.shows@[j - m]));
        }
    }
}

impl CatalogBuilder {
    /// Every item made so far has an identity of its own, below `next_uid`.
    pub open spec fn uids_fresh(self) -> bool {
        &&& forall|i: int| 0 <= i < self.movies@.len() ==> (#[trigger] self.movies@[i]).uid < self.next_uid
        &&& forall|i: int| 0 <= i < self.shows@.len() ==> (#[trigger] self.shows@[i]).uid < self.next_uid
        &&& forall|i: int, j: int|
            0 <= i < self.movies@.len() && 0 <= j < self.movies@.len() && i != j ==> (#[trigger] self.movies@[i]).uid
                != (#[trigger] self.movies@[j]).uid
        &&& forall|i: int, j: int|
            0 <= i < self.shows@.len() && 0 <= j < self.shows@.len() && i != j ==> (#[trigger] self.shows@[i]).uid
                != (#[trigger] self.shows@[j]).uid
        &&& forall|i: int, j: int|
            0 <= i < self.movies@.len() && 0 <= j < self.shows@.len() ==> (#[trigger] self.movies@[i]).uid
                != (#[trigger] self.shows@[j]).uid
    }
}

/// The message that reports an entry found: `"{label} Found: {name}"`.
pub open spec fn found_text(parse: ParseAs, name: Seq<char>) -> Seq<char> {
    parse_label(parse) + " Found: "@ + name
}

/// The message that reports an entry that could not be read.
pub open spec fn failure_text(parse: ParseAs, err: MediaCreateError) -> Seq<char> {
    parse_label(parse) + "     Error during creation: "@ + media_create_error_name(err)
}

impl CatalogBuilder {
    pub fn new(config: Arc<Config>) -> (res: Self)
        ensures
            res.config == config,
            res.movies@.len() == 0,
            res.shows@.len() == 0,
            res.episodes@.len() == 0,
            res.fails@.len() == 0,
            res.next_uid == 0,
            res.uids_fresh(),
    {
        CatalogBuilder {
            config,
            movies: Vec::new(),
            shows: Vec::new(),
            episodes: Vec::new(),
            fails: Vec::new(),
            next_uid: 0,
        }
    }

    /// The filters of the walks: fails when the configured video pattern does
    /// not compile.
    pub fn filters(&self) -> (res: Result<EntryFilters, CatalogBuildError>)
        ensures
            res is Ok <==> regex_compiles(self.config.VideoFileExtensions@),
            res matches Ok(f) ==> f.video.source_text() == self.config.VideoFileExtensions@,
            res matches Err(e) ==> e is RegexError,
    {
        match Pattern::new(self.config.VideoFileExtensions.clone()) {
            Ok(video) => Ok(EntryFilters { video }),
            Err(e) => Err(CatalogBuildError::from(e)),
        }
    }

    /// The four walks of a build, in order: the movies to import (files right
    /// below the directory, kept by the video pattern unless their names hold
    /// an ignore marker), the shows to import
    /// (directories right below, without an ignore marker), the movies of the
    /// library (files two levels down, in their movie folders, kept by the
    /// video pattern) and the shows of the library (directories right below,
    /// all kept).
    pub fn walk_plans(&self) -> (res: Vec<WalkPlan>)
        ensures
            res@.len() == 4,
            res@[0].root@ == self.config.IngestMovieDir@ && res@[0].min_depth == 1
                && res@[0].max_depth == 1 && res@[0].filter == EntryFilter::UnignoredVideo
                && res@[0].parse == ParseAs::Movie,
            res@[1].root@ == self.config.IngestShowDir@ && res@[1].min_depth == 1
                && res@[1].max_depth == 1 && res@[1].filter == EntryFilter::Unignored
                && res@[1].parse == ParseAs::Show,
            res@[2].root@ == self.config.JfMovieDir@ && res@[2].min_depth == 2
                && res@[2].max_depth == 2 && res@[2].filter == EntryFilter::Video
                && res@[2].parse == ParseAs::Movie,
            res@[3].root@ == self.config.JfShowDir@ && res@[3].min_depth == 1
                && res@[3].max_depth == 1 && res@[3].filter == EntryFilter::Nothing
                && res@[3].parse == ParseAs::Show,
    {
        let mut plans: Vec<WalkPlan> = Vec::new();
        plans.push(
            WalkPlan {
                root: self.config.IngestMovieDir.clone(),
                min_depth: 1,
                max_depth: 1,
                filter: EntryFilter::UnignoredVideo,
                parse: ParseAs::Movie,
            },
        );
        plans.push(
            WalkPlan {
                root: self.config.IngestShowDir.clone(),
                min_depth: 1,
                max_depth: 1,
                filter: EntryFilter::Unignored,
                parse: ParseAs::Show,
            },
        );
        plans.push(
            WalkPlan {
                root: self.config.JfMovieDir.clone(),
                min_depth: 2,
                max_depth: 2,
                filter: EntryFilter::Video,
                parse: ParseAs::Movie,
            },
        );
        plans.push(
            WalkPlan {
                root: self.config.JfShowDir.clone(),
                min_depth: 1,
                max_depth: 1,
                filter: EntryFilter::Nothing,
                parse: ParseAs::Show,
            },
        );
        plans
    }

    /// The status message for an entry named `name` that a walk kept.
    pub fn found_message(parse: &ParseAs, name: &str) -> (res: String)
        ensures
            res@ == found_text(*parse, name@),
    {
        let mut out: Vec<char> = Vec::new();
        extend_str(&mut out, parse.label());
        extend_str(&mut out, " Found: ");
        extend_str(&mut out, name);
        proof {
            reveal_strlit(" Found: ");
        }
        string_from_chars(&out)
    }

    /// The status message for an entry that could not be read.
    pub fn failure_message(parse: &ParseAs, failure: &CatalogFailure) -> (res: String)
        ensures
            res@ == failure_text(*parse, failure.err),
    {
        let mut out: Vec<char> = Vec::new();
        extend_str(&mut out, parse.label());
        extend_str(&mut out, "     Error during creation: ");
        extend_str(&mut out, failure.err.debug_name());
        string_from_chars(&out)
    }

    /// Reads the entry at `path` as `parse` says. A movie or show is added to
    /// the catalog; an entry that cannot be read is handed back, not yet
    /// recorded.
    pub fn create_item(&mut self, path: String, parse: &ParseAs) -> (res: Result<(), CatalogFailure>)
        requires
            old(self).next_uid < u64::MAX,
        ensures
            final(self).config == old(self).config,
            res is Ok ==> final(self).next_uid == old(self).next_uid + 1,
            res is Err ==> final(self).next_uid == old(self).next_uid,
            old(self).uids_fresh() ==> final(self).uids_fresh(),
            final(self).episodes@ == old(self).episodes@,
            final(self).fails@ == old(self).fails@,
            crate::paths::spec_file_stem(path@) is None ==> {
                &&& res matches Err(f) && f.err == MediaCreateError::IncorrectFileTypeSupplied
                    && f.buf@ == path@
                &&& final(self).movies@ == old(self).movies@
                &&& final(self).shows@ == old(self).shows@
            },
            crate::paths::spec_file_stem(path@) is Some && *parse == ParseAs::Movie ==> {
                &&& res is Ok
                &&& final(self).shows@ == old(self).shows@
                &&& final(self).movies@.len() == old(self).movies@.len() + 1
                &&& final(self).movies@.drop_last() == old(self).movies@
                &&& final(self).movies@.last().is_movie_of(path@)
                &&& final(self).movies@.last().uid == old(self).next_uid
            },
            crate::paths::spec_file_stem(path@) is Some && *parse == ParseAs::Show ==> {
                &&& res is Ok
                &&& final(self).movies@ == old(self).movies@
                &&& final(self).shows@.len() == old(self).shows@.len() + 1
                &&& final(self).shows@.drop_last() == old(self).shows@
                &&& final(self).shows@.last().is_show_of(path@)
                &&& final(self).shows@.last().uid == old(self).next_uid
            },
    {
        let ghost old_movies = self.movies@;
        let ghost old_shows = self.shows@;
        match parse {
            ParseAs::Movie => match Movie::new(Some(path.clone())) {
                Ok(movie) => {
                    let uid = self.next_uid;
                    self.movies.push(Arc::new(movie.with_uid(uid)));
                    self.next_uid = uid + 1;
                    assert(self.movies@.drop_last() =~= old_movies);
                    Ok(())
                },
                Err(err) => Err(CatalogFailure { err, buf: path }),
            },
            ParseAs::Show => match Show::new(Some(path.clone())) {
                Ok(show) => {
                    let uid = self.next_uid;
                    self.shows.push(Arc::new(show.with_uid(uid)));
                    self.next_uid = uid + 1;
                    assert(self.shows@.drop_last() =~= old_shows);
                    Ok(())
                },
                Err(err) => Err(CatalogFailure { err, buf: path }),
            },
        }
    }

    /// Records an entry that could not be read.
    pub fn record_failure(&mut self, failure: CatalogFailure)
        ensures
            final(self).fails@ == old(self).fails@.push(failure),
            final(self).config == old(self).config,
            final(self).movies@ == old(self).movies@,
            final(self).shows@ == old(self).shows@,
            final(self).episodes@ == old(self).episodes@,
            final(self).next_uid == old(self).next_uid,
    {
        self.fails.push(failure);
    }

    /// The catalog of what was collected.
    pub fn finish(self) -> (res: Catalog)
        ensures
            res.config == self.config,
            res.movies@ == self.movies@,
            res.shows@ == self.shows@,
            res.episodes@ == self.episodes@,
            res.failures@ == self.fails@,
    {
        Catalog {
            config: self.config,
            movies: self.movies,
            shows: self.shows,
            episodes: self.episodes,
            failures: self.fails,
        }
    }
}


impl CatalogBuilder {
    /// Takes in one entry of a walk of `parse` items: an entry of the other
    /// kind (a directory for movies, a file for shows) is passed over; else it
    /// is reported found and becomes an item, or a failure that is reported
    /// and recorded (an entry whose path is not Unicode is such a failure).
    /// The messages to report are handed back, in order; whether they can be
    /// sent changes nothing of what is recorded.
    pub fn push_entry(&mut self, parse: &ParseAs, entry: &WalkedEntry) -> (messages: Vec<String>)
        requires
            old(self).next_uid < u64::MAX,
        ensures
            final(self).config == old(self).config,
            final(self).episodes@ == old(self).episodes@,
            old(self).uids_fresh() ==> final(self).uids_fresh(),
            !parse.accepts_spec(entry.is_file, entry.is_dir) ==> {
                &&& messages@.len() == 0
                &&& final(self).movies@ == old(self).movies@
                &&& final(self).shows@ == old(self).shows@
                &&& final(self).fails@ == old(self).fails@
                &&& final(self).next_uid == old(self).next_uid
            },
            parse.accepts_spec(entry.is_file, entry.is_dir) ==> message_texts(messages@)[0] == found_text(*parse, entry.name@)
                && messages@.len() >= 1,
            parse.accepts_spec(entry.is_file, entry.is_dir) && entry.path is None ==> {
                &&& message_texts(messages@) == seq![
                    found_text(*parse, entry.name@),
                    failure_text(*parse, MediaCreateError::PathNotUnicode),
                ]
                &&& final(self).fails@.len() == old(self).fails@.len() + 1
                &&& final(self).fails@.drop_last() == old(self).fails@
                &&& final(self).fails@.last().err == MediaCreateError::PathNotUnicode
                &&& final(self).fails@.last().buf@ == entry.shown_path@
                &&& final(self).movies@ == old(self).movies@
                &&& final(self).shows@ == old(self).shows@
                &&& final(self).next_uid == old(self).next_uid
            },
            parse.accepts_spec(entry.is_file, entry.is_dir) && entry.path is Some
                && crate::paths::spec_file_stem(entry.path.unwrap()@) is None ==> {
                &&& message_texts(messages@) == seq![
                    found_text(*parse, entry.name@),
                    failure_text(*parse, MediaCreateError::IncorrectFileTypeSupplied),
                ]
                &&& final(self).fails@.len() == old(self).fails@.len() + 1
                &&& final(self).fails@.drop_last() == old(self).fails@
                &&& final(self).fails@.last().err == MediaCreateError::IncorrectFileTypeSupplied
                &&& final(self).fails@.last().buf@ == entry.path.unwrap()@
                &&& final(self).movies@ == old(self).movies@
                &&& final(self).shows@ == old(self).shows@
                &&& final(self).next_uid == old(self).next_uid
            },
            parse.accepts_spec(entry.is_file, entry.is_dir) && entry.path is Some
                && crate::paths::spec_file_stem(entry.path.unwrap()@) is Some && *parse == ParseAs::Movie ==> {
                &&& message_texts(messages@) == seq![found_text(*parse, entry.name@)]
                &&& final(self).movies@.len() == old(self).movies@.len() + 1
                &&& final(self).movies@.drop_last() == old(self).movies@
                &&& final(self).movies@.last().is_movie_of(entry.path.unwrap()@)
                &&& final(self).movies@.last().uid == old(self).next_uid
                &&& final(self).shows@ == old(self).shows@
                &&& final(self).fails@ == old(self).fails@
                &&& final(self).next_uid == old(self).next_uid + 1
            },
            parse.accepts_spec(entry.is_file, entry.is_dir) && entry.path is Some
                && crate::paths::spec_file_stem(entry.path.unwrap()@) is Some && *parse == ParseAs::Show ==> {
                &&& message_texts(messages@) == seq![found_text(*parse, entry.name@)]
                &&& final(self).shows@.len() == old(self).shows@.len() + 1
                &&& final(self).shows@.drop_last() == old(self).shows@
                &&& final(self).shows@.last().is_show_of(entry.path.unwrap()@)
                &&& final(self).shows@.last().uid == old(self).next_uid
                &&& final(self).movies@ == old(self).movies@
                &&& final(self).fails@ == old(self).fails@
                &&& final(self).next_uid == old(self).next_uid + 1
            },
    {
        let mut messages: Vec<String> = Vec::new();
        if !parse.accepts(entry.is_file, entry.is_dir) {
            return messages;
        }
        messages.push(CatalogBuilder::found_message(parse, entry.name.as_str()));
        let result = match &entry.path {
            Some(path) => self.create_item(path.clone(), parse),
            None => Err(CatalogFailure { err: MediaCreateError::PathNotUnicode, buf: entry.shown_path.clone() }),
        };
        match result {
            Ok(()) => {},
            Err(failure) => {
                messages.push(CatalogBuilder::failure_message(parse, &failure));
                self.record_failure(failure);
            },
        }
        assert(message_texts(messages@) =~= messages@.map_values(|m: String| m@));
        messages
    }
}
} // verus!
