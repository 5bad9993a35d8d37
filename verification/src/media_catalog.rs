//! Generating the catalog tree from listings of the directories to import: the
//! movies directory, the shows directory, and the contents of each show. The
//! listings are the caller's; what is kept, what each entry becomes, what is
//! reported and how the tree is laid out is decided here.
use vstd::prelude::*;
use std::sync::Arc;

use crate::api_client::QueryStatus;
use crate::api_manifest::{marked, ApiManifest};
use crate::item_table::{item_key, keys_distinct};
use crate::catalog::{movie_items, share, show_items};
use crate::catalog_builder::{has_ignore_marker, EntryFilter, EntryFilters};
use crate::config::Config;
use crate::media_item::{
    episode_id_of_path, episode_numbers_fit, Episode, MediaCreateError, MediaItem, Movie, Show,
};
use crate::paths::spec_file_stem;
use crate::pattern::{regex_compiles, regex_is_match, Pattern};
use crate::text::{chars_of, extend_str, string_from_chars};
use crate::tree::{episode_nodes, is_leaf_of, TreeNode};

verus! {

/// Why the catalog tree could not be generated.
#[derive(Debug)]
pub enum TreeGenError {
    EnvVarNotSet,
    /// The variable's raw bytes.
    EnvVarNotUnicode(Vec<u8>),
    MoviesDirDoesntExist,
    ShowsDirDoesntExist,
    RegexError(regex::Error),
    /// The pattern's syntax is wrong, as the message says.
    RegexSyntaxError(String),
    /// The compiled pattern exceeds the size limit given.
    RegexTooBig(usize),
    /// The pattern failed to compile for another reason.
    RegexUnknown,
    /// A status report that could not be sent.
    StatusReportSendError(String),
}

/// The two ways `regex::Error` says a pattern failed, and any other.
pub enum RegexFailure {
    Syntax(String),
    TooBig(usize),
    Unknown,
}

/// The variant of a `regex::Error`, with what it carries. The enum has the
/// two variants `Syntax` and `CompiledTooBig` (it is marked non-exhaustive,
/// so the match needs a last arm that no value reaches); which of them a
/// given error is, is not stated: the type is opaque here.
#[verifier::external_body]
fn regex_failure(e: regex::Error) -> (res: RegexFailure)
    ensures
        !(res is Unknown),
{
    match e {
        regex::Error::Syntax(message) => RegexFailure::Syntax(message),
        regex::Error::CompiledTooBig(limit) => RegexFailure::TooBig(limit),
        _ => RegexFailure::Unknown,
    }
}

/// The error for a pattern that did not compile, by what the failure was.
fn regex_gen_error(e: regex::Error) -> (res: TreeGenError)
    ensures
        res is RegexSyntaxError || res is RegexTooBig,
{
    match regex_failure(e) {
        RegexFailure::Syntax(message) => TreeGenError::RegexSyntaxError(message),
        RegexFailure::TooBig(limit) => TreeGenError::RegexTooBig(limit),
        RegexFailure::Unknown => TreeGenError::RegexUnknown,
    }
}

impl From<regex::Error> for TreeGenError {
    fn from(value: regex::Error) -> (res: Self) {
        TreeGenError::RegexError(value)
    }
}

impl vstd::std_specs::convert::FromSpecImpl<regex::Error> for TreeGenError {
    open spec fn obeys_from_spec() -> bool {
        true
    }

    open spec fn from_spec(v: regex::Error) -> Self {
        TreeGenError::RegexError(v)
    }
}

/// An entry of a directory listing: its path (the listed directory joined with
/// the entry's relative path), its file name, and what it is.
#[derive(Debug, Clone)]
pub struct WalkEntry {
    pub path: String,
    /// Whether the path is valid Unicode; when it is not, `path` and `name`
    /// are written with replacement characters where it is not.
    pub unicode: bool,
    pub name: String,
    pub is_file: bool,
    pub is_dir: bool,
}

/// The entry's path, where it is valid Unicode.
fn entry_path(e: &WalkEntry) -> (res: Option<String>)
    ensures
        res is Some <==> e.unicode,
        res is Some ==> res.unwrap()@ == e.path@,
{
    if e.unicode {
        Some(e.path.clone())
    } else {
        None
    }
}

/// An entry of the shows directory, with the listing of everything below it
/// (sorted by path), which is read if the entry becomes a show.
#[derive(Debug, Clone)]
pub struct ShowListing {
    pub dir: WalkEntry,
    pub contents: Vec<WalkEntry>,
}

/// A movie entry is a file that the video pattern matches and whose name
/// holds no ignore marker.
pub open spec fn keeps_movie(e: WalkEntry, video: Seq<char>) -> bool {
    e.is_file && regex_is_match(video, e.name@) && !has_ignore_marker(e.name@)
}

pub open spec fn keeps_show(e: WalkEntry) -> bool {
    e.is_dir && !has_ignore_marker(e.name@)
}

/// The texts of a list of strings.
pub open spec fn texts(v: Seq<String>) -> Seq<Seq<char>> {
    v.map_values(|s: String| s@)
}

/// `nodes` are the failures `fs` (each an error and the path of the entry),
/// in order.
pub open spec fn fail_nodes(nodes: Seq<TreeNode>, fs: Seq<(MediaCreateError, Seq<char>)>) -> bool {
    &&& nodes.len() == fs.len()
    &&& forall|k: int|
        0 <= k < fs.len() ==> (#[trigger] nodes[k] matches TreeNode::Fail { err, buf } && err
            == fs[k].0 && buf@ == fs[k].1)
}

// ---------------------------------------------------------------------------
// Movies
// ---------------------------------------------------------------------------

/// The paths of the movies read from a listing of the movies directory.
pub open spec fn movie_paths(es: Seq<WalkEntry>, video: Seq<char>) -> Seq<Seq<char>>
    decreases es.len(),
{
    if es.len() == 0 {
        Seq::empty()
    } else {
        let rest = movie_paths(es.drop_last(), video);
        if keeps_movie(es.last(), video) && es.last().unicode && spec_file_stem(es.last().path@) is Some {
            rest.push(es.last().path@)
        } else {
            rest
        }
    }
}

/// The kept entries of the movies directory that are no movie.
pub open spec fn movie_failures(es: Seq<WalkEntry>, video: Seq<char>) -> Seq<(MediaCreateError, Seq<char>)>
    decreases es.len(),
{
    if es.len() == 0 {
        Seq::empty()
    } else {
        let rest = movie_failures(es.drop_last(), video);
        if keeps_movie(es.last(), video) && !es.last().unicode {
            rest.push((MediaCreateError::PathNotUnicode, es.last().path@))
        } else if keeps_movie(es.last(), video) && spec_file_stem(es.last().path@) is None {
            rest.push((MediaCreateError::IncorrectFileTypeSupplied, es.last().path@))
        } else {
            rest
        }
    }
}

/// The status lines of the movies directory: one per kept entry.
pub open spec fn movie_lines(es: Seq<WalkEntry>, video: Seq<char>) -> Seq<Seq<char>>
    decreases es.len(),
{
    if es.len() == 0 {
        Seq::empty()
    } else {
        let rest = movie_lines(es.drop_last(), video);
        if keeps_movie(es.last(), video) {
            rest.push("[Movie]   Found: "@ + es.last().name@)
        } else {
            rest
        }
    }
}

fn scan_movies(
    entries: &Vec<WalkEntry>,
    filters: &EntryFilters,
    movies: &mut Vec<Arc<Movie>>,
    fails: &mut Vec<TreeNode>,
    status: &mut Vec<String>,
)
    requires
        old(movies)@.len() == 0,
        old(fails)@.len() == 0,
    ensures
        final(movies)@.len() == movie_paths(entries@, filters.video.source_text()).len(),
        forall|k: int|
            0 <= k < final(movies)@.len() ==> #[trigger] final(movies)@[k].is_movie_of(
                movie_paths(entries@, filters.video.source_text())[k],
            ),
        forall|k: int| 0 <= k < final(movies)@.len() ==> (#[trigger] final(movies)@[k]).uid == k,
        fail_nodes(final(fails)@, movie_failures(entries@, filters.video.source_text())),
        texts(final(status)@) == texts(old(status)@) + movie_lines(
            entries@,
            filters.video.source_text(),
        ),
{
    let ghost video = filters.video.source_text();
    let ghost start = texts(status@);
    let mut i: usize = 0;
    while i < entries.len()
        invariant
            i <= entries@.len(),
            video == filters.video.source_text(),
            movies@.len() == movie_paths(entries@.subrange(0, i as int), video).len(),
            forall|k: int|
                0 <= k < movies@.len() ==> #[trigger] movies@[k].is_movie_of(
                    movie_paths(entries@.subrange(0, i as int), video)[k],
                ),
            forall|k: int| 0 <= k < movies@.len() ==> (#[trigger] movies@[k]).uid == k,
            fail_nodes(fails@, movie_failures(entries@.subrange(0, i as int), video)),
            texts(status@) == start + movie_lines(entries@.subrange(0, i as int), video),
        decreases entries.len() - i,
    {
        let e = &entries[i];
        assert(entries@.subrange(0, i + 1).drop_last() =~= entries@.subrange(0, i as int));
        assert(entries@.subrange(0, i + 1).last() == *e);
        if e.is_file && filters.keeps(&EntryFilter::UnignoredVideo, e.name.as_str()) {
            let line = found_line("[Movie]   Found: ", e.name.as_str());
            let ghost before = status@;
            status.push(line);
            assert(texts(status@) =~= texts(before).push(line@));
            match Movie::new(entry_path(e)) {
                Ok(movie) => {
                    let uid = movies.len() as u64;
                    movies.push(Arc::new(movie.with_uid(uid)));
                },
                Err(err) => {
                    fails.push(TreeNode::Fail { err, buf: e.path.clone() });
                },
            }
        }
        i = i + 1;
    }
    assert(entries@.subrange(0, i as int) =~= entries@);
}

// ---------------------------------------------------------------------------
// Shows
// ---------------------------------------------------------------------------

/// The entries of the shows directory that become shows, with their listings.
pub open spec fn created_shows(ls: Seq<ShowListing>) -> Seq<ShowListing>
    decreases ls.len(),
{
    if ls.len() == 0 {
        Seq::empty()
    } else {
        let rest = created_shows(ls.drop_last());
        if keeps_show(ls.last().dir) && ls.last().dir.unicode && spec_file_stem(ls.last().dir.path@) is Some {
            rest.push(ls.last())
        } else {
            rest
        }
    }
}

/// The kept entries of the shows directory that are no show.
pub open spec fn show_failures(ls: Seq<ShowListing>) -> Seq<(MediaCreateError, Seq<char>)>
    decreases ls.len(),
{
    if ls.len() == 0 {
        Seq::empty()
    } else {
        let rest = show_failures(ls.drop_last());
        if keeps_show(ls.last().dir) && !ls.last().dir.unicode {
            rest.push((MediaCreateError::PathNotUnicode, ls.last().dir.path@))
        } else if keeps_show(ls.last().dir) && spec_file_stem(ls.last().dir.path@) is None {
            rest.push((MediaCreateError::IncorrectFileTypeSupplied, ls.last().dir.path@))
        } else {
            rest
        }
    }
}

/// The status lines of the shows directory: one per kept entry.
pub open spec fn show_lines(ls: Seq<ShowListing>) -> Seq<Seq<char>>
    decreases ls.len(),
{
    if ls.len() == 0 {
        Seq::empty()
    } else {
        let rest = show_lines(ls.drop_last());
        if keeps_show(ls.last().dir) {
            rest.push("[Show]    Found: "@ + ls.last().dir.name@)
        } else {
            rest
        }
    }
}

fn scan_shows(
    listings: &Vec<ShowListing>,
    filters: &EntryFilters,
    pending: &mut Vec<Show>,
    origin: &mut Vec<usize>,
    fails: &mut Vec<TreeNode>,
    status: &mut Vec<String>,
    Ghost(prev): Ghost<Seq<(MediaCreateError, Seq<char>)>>,
)
    requires
        old(pending)@.len() == 0,
        old(origin)@.len() == 0,
        fail_nodes(old(fails)@, prev),
    ensures
        final(pending)@.len() == created_shows(listings@).len(),
        final(origin)@.len() == final(pending)@.len(),
        forall|k: int|
            0 <= k < final(pending)@.len() ==> {
                &&& #[trigger] final(origin)@[k] < listings@.len()
                &&& listings@[final(origin)@[k] as int] == created_shows(listings@)[k]
                &&& final(pending)@[k].is_show_of(created_shows(listings@)[k].dir.path@)
            },
        fail_nodes(final(fails)@, prev + show_failures(listings@)),
        texts(final(status)@) == texts(old(status)@) + show_lines(listings@),
{
    let ghost start = texts(status@);
    let mut i: usize = 0;
    while i < listings.len()
        invariant
            i <= listings@.len(),
            pending@.len() == created_shows(listings@.subrange(0, i as int)).len(),
            origin@.len() == pending@.len(),
            forall|k: int|
                0 <= k < pending@.len() ==> {
                    &&& #[trigger] origin@[k] < i
                    &&& listings@[origin@[k] as int] == created_shows(
                        listings@.subrange(0, i as int),
                    )[k]
                    &&& pending@[k].is_show_of(
                        created_shows(listings@.subrange(0, i as int))[k].dir.path@,
                    )
                },
            fail_nodes(fails@, prev + show_failures(listings@.subrange(0, i as int))),
            texts(status@) == start + show_lines(listings@.subrange(0, i as int)),
        decreases listings.len() - i,
    {
        let l = &listings[i];
        assert(listings@.subrange(0, i + 1).drop_last() =~= listings@.subrange(0, i as int));
        assert(listings@.subrange(0, i + 1).last() == *l);
        if l.dir.is_dir && filters.keeps(&EntryFilter::Unignored, l.dir.name.as_str()) {
            let line = found_line("[Show]    Found: ", l.dir.name.as_str());
            let ghost before = status@;
            status.push(line);
            assert(texts(status@) =~= texts(before).push(line@));
            match Show::new(entry_path(&l.dir)) {
                Ok(show) => {
                    pending.push(show);
                    origin.push(i);
                },
                Err(err) => {
                    let ghost fbefore = fails@;
                    fails.push(TreeNode::Fail { err, buf: l.dir.path.clone() });
                    assert(prev + show_failures(listings@.subrange(0, i + 1)) =~= (prev
                        + show_failures(listings@.subrange(0, i as int))).push(
                        (err, l.dir.path@),
                    ));
                },
            }
        }
        i = i + 1;
    }
    assert(listings@.subrange(0, i as int) =~= listings@);
}

// ---------------------------------------------------------------------------
// Episodes
// ---------------------------------------------------------------------------

/// `base` as a directory prefix: with a trailing `/`.
pub open spec fn dir_prefix(base: Seq<char>) -> Seq<char> {
    if base.len() > 0 && base.last() == '/' {
        base
    } else {
        base.push('/')
    }
}

/// `path` lies below the directory `base`.
pub open spec fn is_under(base: Seq<char>, path: Seq<char>) -> bool {
    dir_prefix(base).len() <= path.len() && path.take(dir_prefix(base).len() as int) == dir_prefix(
        base,
    )
}

/// The part of `path` below `base`.
pub open spec fn relative(base: Seq<char>, path: Seq<char>) -> Seq<char> {
    path.skip(dir_prefix(base).len() as int)
}

fn relative_path(base: &str, path: &str) -> (res: String)
    requires
        is_under(base@, path@),
    ensures
        res@ == relative(base@, path@),
{
    let b = chars_of(base);
    let p = chars_of(path);
    let plen = p.len();
    assert(dir_prefix(base@).len() <= plen);
    let start: usize = if b.len() > 0 && b[b.len() - 1] == '/' {
        b.len()
    } else {
        b.len() + 1
    };
    let mut out: Vec<char> = Vec::new();
    let mut i: usize = start;
    while i < p.len()
        invariant
            start <= i <= p@.len(),
            out@ == p@.subrange(start as int, i as int),
        decreases p.len() - i,
    {
        out.push(p[i]);
        i = i + 1;
    }
    assert(out@ =~= relative(base@, path@));
    string_from_chars(&out)
}

/// `ep` is the episode read from the file at `path` of the show at `parent`.
pub open spec fn is_episode_of(ep: Episode, path: Seq<char>, parent: Seq<char>) -> bool {
    &&& ep.src@ == path
    &&& episode_id_of_path(path) == Some(ep.id)
    &&& ep.parent@ == parent
}

/// The paths of the episodes read from a show's listing: its files with an
/// episode identifier.
pub open spec fn episode_paths(cs: Seq<WalkEntry>) -> Seq<Seq<char>>
    decreases cs.len(),
{
    if cs.len() == 0 {
        Seq::empty()
    } else {
        let rest = episode_paths(cs.drop_last());
        if cs.last().is_file && cs.last().unicode && episode_id_of_path(cs.last().path@) is Some {
            rest.push(cs.last().path@)
        } else {
            rest
        }
    }
}

/// The files of a show's listing without an episode identifier.
pub open spec fn episode_failures(cs: Seq<WalkEntry>) -> Seq<(MediaCreateError, Seq<char>)>
    decreases cs.len(),
{
    if cs.len() == 0 {
        Seq::empty()
    } else {
        let rest = episode_failures(cs.drop_last());
        if cs.last().is_file && !cs.last().unicode {
            rest.push((MediaCreateError::PathNotUnicode, cs.last().path@))
        } else if cs.last().is_file && episode_id_of_path(cs.last().path@) is None {
            rest.push((MediaCreateError::EpisodeIncorrectFormat, cs.last().path@))
        } else {
            rest
        }
    }
}

/// The status lines of a show's listing: one per file, by its path below the
/// shows directory `base`.
pub open spec fn episode_lines(cs: Seq<WalkEntry>, base: Seq<char>) -> Seq<Seq<char>>
    decreases cs.len(),
{
    if cs.len() == 0 {
        Seq::empty()
    } else {
        let rest = episode_lines(cs.drop_last(), base);
        if cs.last().is_file {
            rest.push("[Episode] Found: "@ + relative(base, cs.last().path@))
        } else {
            rest
        }
    }
}

/// The files of a listing can be read: they lie below `base`, and the numbers
/// of their episode identifiers fit a `u32`.
pub open spec fn readable_listing(cs: Seq<WalkEntry>, base: Seq<char>) -> bool {
    forall|j: int|
        0 <= j < cs.len() && (#[trigger] cs[j]).is_file ==> is_under(base, cs[j].path@)
            && episode_numbers_fit(cs[j].path@)
}

fn scan_episodes(
    cs: &Vec<WalkEntry>,
    parent: &String,
    base: &str,
    eps: &mut Vec<Episode>,
    fails: &mut Vec<TreeNode>,
    status: &mut Vec<String>,
    Ghost(prev): Ghost<Seq<(MediaCreateError, Seq<char>)>>,
)
    requires
        old(eps)@.len() == 0,
        fail_nodes(old(fails)@, prev),
        readable_listing(cs@, base@),
    ensures
        final(eps)@.len() == episode_paths(cs@).len(),
        forall|k: int|
            0 <= k < final(eps)@.len() ==> is_episode_of(
                #[trigger] final(eps)@[k],
                episode_paths(cs@)[k],
                parent@,
            ),
        fail_nodes(final(fails)@, prev + episode_failures(cs@)),
        texts(final(status)@) == texts(old(status)@) + episode_lines(cs@, base@),
{
    let ghost start = texts(status@);
    let mut i: usize = 0;
    while i < cs.len()
        invariant
            i <= cs@.len(),
            readable_listing(cs@, base@),
            eps@.len() == episode_paths(cs@.subrange(0, i as int)).len(),
            forall|k: int|
                0 <= k < eps@.len() ==> is_episode_of(
                    #[trigger] eps@[k],
                    episode_paths(cs@.subrange(0, i as int))[k],
                    parent@,
                ),
            fail_nodes(fails@, prev + episode_failures(cs@.subrange(0, i as int))),
            texts(status@) == start + episode_lines(cs@.subrange(0, i as int), base@),
        decreases cs.len() - i,
    {
        let e = &cs[i];
        assert(cs@.subrange(0, i + 1).drop_last() =~= cs@.subrange(0, i as int));
        assert(cs@.subrange(0, i + 1).last() == *e);
        if e.is_file {
            assert(cs@[i as int].is_file);
            let rel = relative_path(base, e.path.as_str());
            let line = found_line("[Episode] Found: ", rel.as_str());
            let ghost before = status@;
            status.push(line);
            assert(texts(status@) =~= texts(before).push(line@));
            match Episode::new(entry_path(e), true, parent.clone()) {
                Ok(ep) => {
                    eps.push(ep);
                },
                Err(err) => {
                    fails.push(TreeNode::Fail { err, buf: e.path.clone() });
                    assert(prev + episode_failures(cs@.subrange(0, i + 1)) =~= (prev
                        + episode_failures(cs@.subrange(0, i as int))).push(
                        (err, e.path@),
                    ));
                },
            }
        }
        i = i + 1;
    }
    assert(cs@.subrange(0, i as int) =~= cs@);
}

/// The line that reports the start of a show's scan.
pub open spec fn looking_line(base: Seq<char>, dir: Seq<char>) -> Seq<char> {
    "[Show]    Looking for Episodes: "@ + relative(base, dir)
}

/// The status lines of the scans of the shows `ls`, in order.
pub open spec fn episode_scan_lines(ls: Seq<ShowListing>, base: Seq<char>) -> Seq<Seq<char>>
    decreases ls.len(),
{
    if ls.len() == 0 {
        Seq::empty()
    } else {
        episode_scan_lines(ls.drop_last(), base).push(looking_line(base, ls.last().dir.path@))
            + episode_lines(ls.last().contents@, base)
    }
}

/// The failures of the scans of the shows `ls`, in order.
pub open spec fn episode_scan_failures(ls: Seq<ShowListing>) -> Seq<(MediaCreateError, Seq<char>)>
    decreases ls.len(),
{
    if ls.len() == 0 {
        Seq::empty()
    } else {
        episode_scan_failures(ls.drop_last()) + episode_failures(ls.last().contents@)
    }
}

/// `show` is the show read from the entry of `l`, with the episodes of its listing.
pub open spec fn is_scanned_show(show: Show, l: ShowListing) -> bool {
    &&& show.src@ == l.dir.path@
    &&& spec_file_stem(l.dir.path@) is Some
    &&& show.search_term@ == crate::filename::trim_search_term_spec(
        spec_file_stem(l.dir.path@).unwrap(),
    )
    &&& show.wf()
    &&& show.episodes@.len() == episode_paths(l.contents@).len()
    &&& forall|m: int|
        0 <= m < show.episodes@.len() ==> is_episode_of(
            *#[trigger] show.episodes@[m],
            episode_paths(l.contents@)[m],
            l.dir.path@,
        )
}

/// The episodes of the shows, show by show.
pub open spec fn all_episodes(shows: Seq<Arc<Show>>) -> Seq<Arc<Episode>>
    decreases shows.len(),
{
    if shows.len() == 0 {
        Seq::empty()
    } else {
        all_episodes(shows.drop_last()) + shows.last().episodes@
    }
}

/// The entries of the shows directory and the files below them lie below
/// `base`, and their episode identifiers can be read.
pub open spec fn readable_shows(ls: Seq<ShowListing>, base: Seq<char>) -> bool {
    forall|j: int|
        0 <= j < ls.len() ==> is_under(base, (#[trigger] ls[j]).dir.path@) && readable_listing(
            ls[j].contents@,
            base,
        )
}

fn scan_all_episodes(
    listings: &Vec<ShowListing>,
    pending: Vec<Show>,
    origin: &Vec<usize>,
    base: &str,
    shows: &mut Vec<Arc<Show>>,
    episodes: &mut Vec<Arc<Episode>>,
    fails: &mut Vec<TreeNode>,
    status: &mut Vec<String>,
    Ghost(prev): Ghost<Seq<(MediaCreateError, Seq<char>)>>,
)
    requires
        old(shows)@.len() == 0,
        old(episodes)@.len() == 0,
        fail_nodes(old(fails)@, prev),
        readable_shows(listings@, base@),
        pending@.len() == created_shows(listings@).len(),
        origin@.len() == pending@.len(),
        forall|k: int|
            0 <= k < pending@.len() ==> {
                &&& #[trigger] origin@[k] < listings@.len()
                &&& listings@[origin@[k] as int] == created_shows(listings@)[k]
                &&& pending@[k].is_show_of(created_shows(listings@)[k].dir.path@)
            },
    ensures
        final(shows)@.len() == created_shows(listings@).len(),
        forall|k: int|
            0 <= k < final(shows)@.len() ==> is_scanned_show(
                *#[trigger] final(shows)@[k],
                created_shows(listings@)[k],
            ),
        final(episodes)@ == all_episodes(final(shows)@),
        forall|k: int| 0 <= k < final(shows)@.len() ==> (#[trigger] final(shows)@[k]).uid == k,
        forall|k: int| 0 <= k < final(episodes)@.len() ==> (#[trigger] final(episodes)@[k]).uid == k,
        fail_nodes(final(fails)@, prev + episode_scan_failures(created_shows(listings@))),
        texts(final(status)@) == texts(old(status)@) + episode_scan_lines(
            created_shows(listings@),
            base@,
        ),
{
    let ghost created = created_shows(listings@);
    let ghost orig = pending@;
    let ghost start = texts(status@);
    let mut pending = pending;
    let mut k: usize = 0;
    while k < origin.len()
        invariant
            k <= origin@.len(),
            origin@.len() == orig.len(),
            created.len() == orig.len(),
            created == created_shows(listings@),
            readable_shows(listings@, base@),
            pending@ == orig.skip(k as int),
            forall|m: int|
                0 <= m < orig.len() ==> {
                    &&& #[trigger] origin@[m] < listings@.len()
                    &&& listings@[origin@[m] as int] == created[m]
                    &&& orig[m].is_show_of(created[m].dir.path@)
                },
            shows@.len() == k,
            forall|m: int| 0 <= m < k ==> is_scanned_show(*#[trigger] shows@[m], created[m]),
            episodes@ == all_episodes(shows@),
            forall|m: int| 0 <= m < shows@.len() ==> (#[trigger] shows@[m]).uid == m,
            forall|m: int| 0 <= m < episodes@.len() ==> (#[trigger] episodes@[m]).uid == m,
            fail_nodes(fails@, prev + episode_scan_failures(created.subrange(0, k as int))),
            texts(status@) == start + episode_scan_lines(created.subrange(0, k as int), base@),
        decreases origin.len() - k,
    {
        assert(pending@[0] == orig[k as int]);
        let mut show = pending.remove(0);
        assert(pending@ =~= orig.skip(k + 1));
        let l = &listings[origin[k]];
        assert(l.dir.path@ == show.src@);
        let rel = relative_path(base, show.src.as_str());
        let line = found_line("[Show]    Looking for Episodes: ", rel.as_str());
        let ghost before = status@;
        status.push(line);
        assert(texts(status@) =~= texts(before).push(line@));
        let mut found: Vec<Episode> = Vec::new();
        let ghost fails_so_far = prev + episode_scan_failures(created.subrange(0, k as int));
        scan_episodes(&l.contents, &show.src, base, &mut found, fails, status, Ghost(fails_so_far));
        let ghost shows_before = shows@;
        let ghost scanned = found@;
        let ghost ep_start = episodes@;
        let mut eps: Vec<Arc<Episode>> = Vec::new();
        while found.len() > 0
            invariant
                eps@.len() + found@.len() == scanned.len(),
                found@ == scanned.skip(eps@.len() as int),
                episodes@ == ep_start + eps@,
                forall|m: int| 0 <= m < ep_start.len() ==> (#[trigger] ep_start[m]).uid == m,
                forall|m: int|
                    0 <= m < eps@.len() ==> (#[trigger] eps@[m]).src == scanned[m].src && eps@[m].id
                        == scanned[m].id && eps@[m].parent == scanned[m].parent && eps@[m].uid == ep_start.len() + m,
            decreases found.len(),
        {
            let ep = found.remove(0);
            let uid = episodes.len() as u64;
            let a = Arc::new(ep.with_uid(uid));
            episodes.push(share(&a));
            eps.push(a);
        }
        assert forall|m: int| 0 <= m < episodes@.len() implies (#[trigger] episodes@[m]).uid == m by {
            if m >= ep_start.len() {
                assert(episodes@[m] == eps@[m - ep_start.len()]);
            } else {
                assert(episodes@[m] == ep_start[m]);
            }
        }
        show.episodes = eps;
        show.uid = k as u64;
        shows.push(Arc::new(show));
        assert(shows@.drop_last() =~= shows_before);
        assert(created.subrange(0, k + 1).drop_last() =~= created.subrange(0, k as int));
        assert(created.subrange(0, k + 1).last() == created[k as int]);
        k = k + 1;
    }
    assert(created.subrange(0, k as int) =~= created);
}

// ---------------------------------------------------------------------------
// The tree
// ---------------------------------------------------------------------------

/// `node` is a category named `name`.
pub open spec fn is_category(node: TreeNode, name: Seq<char>) -> bool {
    node matches TreeNode::Category { name: n, .. } && n@ == name
}

/// `nodes` show the movies, one each, in order.
pub open spec fn movie_nodes(nodes: Seq<TreeNode>, movies: Seq<Arc<Movie>>) -> bool {
    &&& nodes.len() == movies.len()
    &&& forall|k: int| 0 <= k < movies.len() ==> is_leaf_of(#[trigger] nodes[k], MediaItem::Movie(movies[k]))
}

/// `nodes` show the shows, one each, in order, with their episodes below them.
pub open spec fn show_nodes(nodes: Seq<TreeNode>, shows: Seq<Arc<Show>>) -> bool {
    &&& nodes.len() == shows.len()
    &&& forall|k: int|
        0 <= k < shows.len() ==> (#[trigger] nodes[k] matches TreeNode::Item { inner, children }
            && inner == MediaItem::Show(shows[k]) && episode_nodes(children@, shows[k].episodes@))
}

/// The layout of the catalog tree: a root `.` with the categories `Movies`,
/// `Shows` and `Failures`, in that order.
pub open spec fn tree_layout(
    tree: TreeNode,
    movies: Seq<Arc<Movie>>,
    shows: Seq<Arc<Show>>,
    fails: Seq<(MediaCreateError, Seq<char>)>,
) -> bool {
    let top = crate::tree::children_of(tree).unwrap();
    &&& is_category(tree, "."@)
    &&& top.len() == 3
    &&& is_category(top[0], "Movies"@)
    &&& movie_nodes(crate::tree::children_of(top[0]).unwrap(), movies)
    &&& is_category(top[1], "Shows"@)
    &&& show_nodes(crate::tree::children_of(top[1]).unwrap(), shows)
    &&& is_category(top[2], "Failures"@)
    &&& fail_nodes(crate::tree::children_of(top[2]).unwrap(), fails)
}

fn category(name: &str, children: Vec<TreeNode>) -> (res: TreeNode)
    ensures
        is_category(res, name@),
        crate::tree::children_of(res) == Some(children@),
{
    TreeNode::Category { name: String::from_str(name), children }
}

fn assemble_tree(movies: &Vec<Arc<Movie>>, shows: &Vec<Arc<Show>>, fails: Vec<TreeNode>) -> (res: TreeNode)
    ensures
        forall|fs: Seq<(MediaCreateError, Seq<char>)>|
            #![trigger fail_nodes(fails@, fs)]
            fail_nodes(fails@, fs) ==> tree_layout(res, movies@, shows@, fs),
{
    let mut movie_children: Vec<TreeNode> = Vec::new();
    let mut k: usize = 0;
    while k < movies.len()
        invariant
            k <= movies@.len(),
            movie_nodes(movie_children@, movies@.subrange(0, k as int)),
        decreases movies.len() - k,
    {
        movie_children.push(TreeNode::movie_node(share(&movies[k])));
        k = k + 1;
    }
    assert(movies@.subrange(0, k as int) =~= movies@);
    let mut show_children: Vec<TreeNode> = Vec::new();
    let mut k: usize = 0;
    while k < shows.len()
        invariant
            k <= shows@.len(),
            show_nodes(show_children@, shows@.subrange(0, k as int)),
        decreases shows.len() - k,
    {
        show_children.push(TreeNode::show_node(share(&shows[k])));
        k = k + 1;
    }
    assert(shows@.subrange(0, k as int) =~= shows@);
    proof {
        reveal_strlit(".");
        reveal_strlit("Movies");
        reveal_strlit("Shows");
        reveal_strlit("Failures");
    }
    let movies_cat = category("Movies", movie_children);
    let shows_cat = category("Shows", show_children);
    let fails_cat = category("Failures", fails);
    let mut top: Vec<TreeNode> = Vec::new();
    top.push(movies_cat);
    top.push(shows_cat);
    top.push(fails_cat);
    category(".", top)
}

/// A catalog of the media to import, as lists and as a tree, with the status
/// lines reported while it was generated.
pub struct MediaCatalog {
    pub config: Arc<Config>,
    pub movies: Vec<Arc<Movie>>,
    pub shows: Vec<Arc<Show>>,
    pub episodes: Vec<Arc<Episode>>,
    pub tree: TreeNode,
    pub status: Vec<String>,
}

/// Each item of the catalog has for identity its position among the items of
/// its kind.
pub open spec fn numbered(cat: MediaCatalog) -> bool {
    &&& forall|k: int| 0 <= k < cat.movies@.len() ==> (#[trigger] cat.movies@[k]).uid == k
    &&& forall|k: int| 0 <= k < cat.shows@.len() ==> (#[trigger] cat.shows@[k]).uid == k
    &&& forall|k: int| 0 <= k < cat.episodes@.len() ==> (#[trigger] cat.episodes@[k]).uid == k
}

/// Two items of a generated catalog are never the same item: the catalog
/// numbers the items of each kind, so no two share a key.
pub proof fn lemma_catalog_keys_distinct(cat: MediaCatalog)
    requires
        numbered(cat),
    ensures
        keys_distinct(catalog_items(cat)),
{
    let items = catalog_items(cat);
    let m = cat.movies@.len() as int;
    let s = cat.shows@.len() as int;
    assert forall|i: int, j: int|
        0 <= i < items.len() && 0 <= j < items.len() && i != j implies item_key(#[trigger] items[i])
            != item_key(#[trigger] items[j]) by {
        let ki = if i < m { i } else if i < m + s { i - m } else { i - m - s };
        let kj = if j < m { j } else if j < m + s { j - m } else { j - m - s };
        if i < m {
            assert(items[i] == MediaItem::Movie(cat.movies@[i]));
        } else if i < m + s {
            assert(items[i] == MediaItem::Show(cat.shows@[i - m]));
        } else {
            assert(items[i] == MediaItem::Episode(cat.episodes@[i - m - s]));
        }
        if j < m {
            assert(items[j] == MediaItem::Movie(cat.movies@[j]));
        } else if j < m + s {
            assert(items[j] == MediaItem::Show(cat.shows@[j - m]));
        } else {
            assert(items[j] == MediaItem::Episode(cat.episodes@[j - m - s]));
        }
    }
}

/// Episodes as media items.
pub open spec fn episode_items(episodes: Seq<Arc<Episode>>) -> Seq<MediaItem> {
    episodes.map_values(|e: Arc<Episode>| MediaItem::Episode(e))
}

/// Every media item of a catalog: its movies, then its shows, then their
/// episodes.
pub open spec fn catalog_items(cat: MediaCatalog) -> Seq<MediaItem> {
    movie_items(cat.movies@) + show_items(cat.shows@) + episode_items(cat.episodes@)
}

fn item_list(movies: &Vec<Arc<Movie>>, shows: &Vec<Arc<Show>>, episodes: &Vec<Arc<Episode>>) -> (res: Vec<MediaItem>)
    ensures
        res@ == movie_items(movies@) + show_items(shows@) + episode_items(episodes@),
{
    let mut out: Vec<MediaItem> = Vec::new();
    let mut i: usize = 0;
    while i < movies.len()
        invariant
            i <= movies@.len(),
            out@ == movie_items(movies@.subrange(0, i as int)),
        decreases movies.len() - i,
    {
        out.push(MediaItem::Movie(share(&movies[i])));
        assert(movie_items(movies@.subrange(0, i + 1)) =~= movie_items(movies@.subrange(0, i as int)).push(
            MediaItem::Movie(movies@[i as int]),
        ));
        i = i + 1;
    }
    assert(movies@.subrange(0, i as int) =~= movies@);
    let ghost m = out@;
    let mut i: usize = 0;
    while i < shows.len()
        invariant
            i <= shows@.len(),
            out@ == m + show_items(shows@.subrange(0, i as int)),
        decreases shows.len() - i,
    {
        out.push(MediaItem::Show(share(&shows[i])));
        assert(show_items(shows@.subrange(0, i + 1)) =~= show_items(shows@.subrange(0, i as int)).push(
            MediaItem::Show(shows@[i as int]),
        ));
        i = i + 1;
    }
    assert(shows@.subrange(0, i as int) =~= shows@);
    let ghost ms = out@;
    let mut i: usize = 0;
    while i < episodes.len()
        invariant
            i <= episodes@.len(),
            out@ == ms + episode_items(episodes@.subrange(0, i as int)),
        decreases episodes.len() - i,
    {
        out.push(MediaItem::Episode(share(&episodes[i])));
        assert(episode_items(episodes@.subrange(0, i + 1)) =~= episode_items(episodes@.subrange(0, i as int)).push(
            MediaItem::Episode(episodes@[i as int]),
        ));
        i = i + 1;
    }
    assert(episodes@.subrange(0, i as int) =~= episodes@);
    out
}

/// What a generation gives: the media read from the listings, the status
/// lines after `status`, and the tree of both with the failures.
pub open spec fn generated(
    cat: MediaCatalog,
    config: Arc<Config>,
    status: Seq<Seq<char>>,
    movie_entries: Seq<WalkEntry>,
    listings: Seq<ShowListing>,
) -> bool {
    let video = config.VideoFileExtensions@;
    let base = config.IngestShowDir@;
    let created = created_shows(listings);
    &&& cat.config == config
    &&& cat.movies@.len() == movie_paths(movie_entries, video).len()
    &&& forall|k: int|
        0 <= k < cat.movies@.len() ==> #[trigger] cat.movies@[k].is_movie_of(
            movie_paths(movie_entries, video)[k],
        )
    &&& cat.shows@.len() == created.len()
    &&& forall|k: int| 0 <= k < cat.shows@.len() ==> is_scanned_show(*#[trigger] cat.shows@[k], created[k])
    &&& cat.episodes@ == all_episodes(cat.shows@)
    &&& numbered(cat)
    &&& texts(cat.status@) == status + movie_lines(movie_entries, video) + show_lines(listings)
        + episode_scan_lines(created, base)
    &&& tree_layout(
        cat.tree,
        cat.movies@,
        cat.shows@,
        movie_failures(movie_entries, video) + show_failures(listings) + episode_scan_failures(
            created,
        ),
    )
}

impl MediaCatalog {
    /// An empty catalog, before generation.
    pub fn new(config: Arc<Config>) -> (res: MediaCatalog)
        ensures
            res.config == config,
            res.movies@.len() == 0,
            res.shows@.len() == 0,
            res.episodes@.len() == 0,
            is_category(res.tree, "Uninitialized Tree"@),
            crate::tree::children_of(res.tree) == Some(Seq::<TreeNode>::empty()),
            texts(res.status@) == seq!["Waiting for Feedback!"@],
    {
        let mut status: Vec<String> = Vec::new();
        status.push(String::from_str("Waiting for Feedback!"));
        assert(texts(status@) =~= seq!["Waiting for Feedback!"@]);
        MediaCatalog {
            config,
            movies: Vec::new(),
            shows: Vec::new(),
            episodes: Vec::new(),
            tree: category("Uninitialized Tree", Vec::new()),
            status,
        }
    }

    /// Generates the catalog from the listings of the configured directories:
    /// whether the movies and shows directories exist, the entries of the
    /// movies directory, and the entries of the shows directory each with
    /// everything below it. Movies are the files whose names the video pattern
    /// matches; shows are the directories without an ignore marker; episodes
    /// are the files of a show with an episode identifier. Entries kept that
    /// cannot be read are failures. Every movie, show and episode read is
    /// registered in `calls` as not yet queried.
    pub fn generate_catalog_tree(
        self,
        movies_dir_exists: bool,
        shows_dir_exists: bool,
        movie_entries: &Vec<WalkEntry>,
        show_listings: &Vec<ShowListing>,
        calls: &mut ApiManifest,
    ) -> (res: Result<MediaCatalog, TreeGenError>)
        requires
            readable_shows(show_listings@, self.config.IngestShowDir@),
        ensures
            res is Err ==> final(calls)@ == old(calls)@,
            res matches Ok(cat) ==> marked(old(calls)@, final(calls)@, catalog_items(cat), QueryStatus::NotStarted),
            final(calls).sending() == old(calls).sending(),
            !movies_dir_exists ==> (res matches Err(e) && e is MoviesDirDoesntExist),
            movies_dir_exists && !shows_dir_exists ==> (res matches Err(e) && e is ShowsDirDoesntExist),
            movies_dir_exists && shows_dir_exists && !regex_compiles(
                self.config.VideoFileExtensions@,
            ) ==> (res matches Err(e) && e is RegexError),
            movies_dir_exists && shows_dir_exists && regex_compiles(
                self.config.VideoFileExtensions@,
            ) ==> (res matches Ok(cat) && generated(
                cat,
                self.config,
                texts(self.status@),
                movie_entries@,
                show_listings@,
            )),
    {
        if !movies_dir_exists {
            return Err(TreeGenError::MoviesDirDoesntExist);
        }
        if !shows_dir_exists {
            return Err(TreeGenError::ShowsDirDoesntExist);
        }
        let video = match Pattern::new(self.config.VideoFileExtensions.clone()) {
            Ok(p) => p,
            Err(e) => {
                return Err(TreeGenError::from(e));
            },
        };
        let filters = EntryFilters { video };
        let mut status = self.status;
        let mut movies: Vec<Arc<Movie>> = Vec::new();
        let mut fails: Vec<TreeNode> = Vec::new();
        scan_movies(movie_entries, &filters, &mut movies, &mut fails, &mut status);
        let mut pending: Vec<Show> = Vec::new();
        let mut origin: Vec<usize> = Vec::new();
        let ghost f1 = movie_failures(movie_entries@, filters.video.source_text());
        scan_shows(
            show_listings,
            &filters,
            &mut pending,
            &mut origin,
            &mut fails,
            &mut status,
            Ghost(f1),
        );
        let ghost f2 = f1 + show_failures(show_listings@);
        let mut shows: Vec<Arc<Show>> = Vec::new();
        let mut episodes: Vec<Arc<Episode>> = Vec::new();
        scan_all_episodes(
            show_listings,
            pending,
            &origin,
            self.config.IngestShowDir.as_str(),
            &mut shows,
            &mut episodes,
            &mut fails,
            &mut status,
            Ghost(f2),
        );
        let ghost f3 = f2 + episode_scan_failures(created_shows(show_listings@));
        let tree = assemble_tree(&movies, &shows, fails);
        assert(tree_layout(tree, movies@, shows@, f3));
        let items = item_list(&movies, &shows, &episodes);
        calls.register_all(&items);
        Ok(MediaCatalog { config: self.config, movies, shows, episodes, tree, status })
    }
}

/// Why an environment variable could not be read: it is not set, or its value
/// (given as its raw bytes) is not Unicode.
#[derive(Debug, Clone)]
pub enum EnvVarError {
    NotPresent,
    NotUnicode(Vec<u8>),
}

/// The error for a variable that could not be read.
pub open spec fn env_var_error(e: EnvVarError, res: TreeGenError) -> bool {
    match e {
        EnvVarError::NotPresent => res is EnvVarNotSet,
        EnvVarError::NotUnicode(b) => res matches TreeGenError::EnvVarNotUnicode(c) && c@ == b@,
    }
}

fn from_env_var_error(e: EnvVarError) -> (res: TreeGenError)
    ensures
        env_var_error(e, res),
{
    match e {
        EnvVarError::NotPresent => TreeGenError::EnvVarNotSet,
        EnvVarError::NotUnicode(b) => TreeGenError::EnvVarNotUnicode(b),
    }
}

/// The configuration of a generation from the environment: the movies and
/// shows to import are in `movies` and `shows` below the source directory,
/// and video files are named as the pattern says.
pub open spec fn env_config(c: Config, src_dir: Seq<char>, video: Seq<char>) -> bool {
    &&& c.IngestMovieDir@ == src_dir + "/movies"@
    &&& c.IngestShowDir@ == src_dir + "/shows"@
    &&& c.VideoFileExtensions@ == video
}

fn joined(dir: &str, sub: &str) -> (res: String)
    ensures
        res@ == dir@ + sub@,
{
    let mut out: Vec<char> = Vec::new();
    extend_str(&mut out, dir);
    extend_str(&mut out, sub);
    string_from_chars(&out)
}

/// Generates the catalog from the environment: the source directory
/// (`SRC_DIR`) and the video pattern (`VIDEO_FILE_EXTENTIONS`) as read, whether
/// its `movies` and `shows` subdirectories exist, and their listings. The
/// source directory is needed first, then both subdirectories, then the
/// pattern, which must compile (a failure is told by its kind); the catalog is
/// then generated as
/// `MediaCatalog::generate_catalog_tree` does, registering its items in a
/// table of its own.
pub fn generate_catalog_tree(
    src_dir: Result<String, EnvVarError>,
    video_pattern: Result<String, EnvVarError>,
    movies_dir_exists: bool,
    shows_dir_exists: bool,
    movie_entries: &Vec<WalkEntry>,
    show_listings: &Vec<ShowListing>,
) -> (res: Result<MediaCatalog, TreeGenError>)
    requires
        src_dir is Ok ==> readable_shows(show_listings@, src_dir.unwrap()@ + "/shows"@),
    ensures
        src_dir is Err ==> (res matches Err(e) && env_var_error(src_dir.unwrap_err(), e)),
        src_dir is Ok && !movies_dir_exists ==> (res matches Err(e) && e is MoviesDirDoesntExist),
        src_dir is Ok && movies_dir_exists && !shows_dir_exists ==> (res matches Err(e)
            && e is ShowsDirDoesntExist),
        src_dir is Ok && movies_dir_exists && shows_dir_exists && video_pattern is Err ==> (res matches Err(e)
            && env_var_error(video_pattern.unwrap_err(), e)),
        src_dir is Ok && movies_dir_exists && shows_dir_exists && video_pattern is Ok && !regex_compiles(
            video_pattern.unwrap()@,
        ) ==> (res matches Err(e) && (e is RegexSyntaxError || e is RegexTooBig)),
        src_dir is Ok && movies_dir_exists && shows_dir_exists && video_pattern is Ok && regex_compiles(
            video_pattern.unwrap()@,
        ) ==> (res matches Ok(cat) && env_config(*cat.config, src_dir.unwrap()@, video_pattern.unwrap()@)
            && generated(cat, cat.config, seq!["Waiting for Feedback!"@], movie_entries@, show_listings@)),
{
    let src = match src_dir {
        Ok(s) => s,
        Err(e) => {
            return Err(from_env_var_error(e));
        },
    };
    if !movies_dir_exists {
        return Err(TreeGenError::MoviesDirDoesntExist);
    }
    if !shows_dir_exists {
        return Err(TreeGenError::ShowsDirDoesntExist);
    }
    let video = match video_pattern {
        Ok(v) => v,
        Err(e) => {
            return Err(from_env_var_error(e));
        },
    };
    proof {
        reveal_strlit("/movies");
        reveal_strlit("/shows");
    }
    let config = Config {
        CacheDir: None,
        VideoFileExtensions: video,
        IngestMovieDir: joined(src.as_str(), "/movies"),
        IngestShowDir: joined(src.as_str(), "/shows"),
        JfMovieDir: String::new(),
        JfShowDir: String::new(),
    };
    let mut calls = ApiManifest::new();
    match MediaCatalog::new(Arc::new(config)).generate_catalog_tree(true, true, movie_entries, show_listings, &mut calls) {
        Err(TreeGenError::RegexError(e)) => Err(regex_gen_error(e)),
        other => other,
    }
}

// ---------------------------------------------------------------------------
// What every kept entry becomes
// ---------------------------------------------------------------------------

/// Every entry of the movies directory that is kept is reported once and
/// becomes exactly one thing: a movie or a failure.
pub proof fn lemma_movie_entries_partition(es: Seq<WalkEntry>, video: Seq<char>)
    ensures
        movie_paths(es, video).len() + movie_failures(es, video).len() == movie_lines(
            es,
            video,
        ).len(),
    decreases es.len(),
{
    if es.len() > 0 {
        lemma_movie_entries_partition(es.drop_last(), video);
    }
}

/// Every entry of the shows directory that is kept is reported once and
/// becomes exactly one thing: a show or a failure.
pub proof fn lemma_show_entries_partition(ls: Seq<ShowListing>)
    ensures
        created_shows(ls).len() + show_failures(ls).len() == show_lines(ls).len(),
    decreases ls.len(),
{
    if ls.len() > 0 {
        lemma_show_entries_partition(ls.drop_last());
    }
}

/// Every file of a show is reported once and becomes exactly one thing: an
/// episode or a failure.
pub proof fn lemma_episode_files_partition(cs: Seq<WalkEntry>, base: Seq<char>)
    ensures
        episode_paths(cs).len() + episode_failures(cs).len() == episode_lines(cs, base).len(),
    decreases cs.len(),
{
    if cs.len() > 0 {
        lemma_episode_files_partition(cs.drop_last(), base);
    }
}

/// `label` followed by `name`.
fn found_line(label: &str, name: &str) -> (res: String)
    ensures
        res@ == label@ + name@,
{
    let mut out: Vec<char> = Vec::new();
    extend_str(&mut out, label);
    extend_str(&mut out, name);
    string_from_chars(&out)
}

} // verus!
