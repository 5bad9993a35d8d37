//! The command-line importer: its records of movies, shows and episodes, the
//! settings read from its `.env` files, the scan of the source directories,
//! and where each file goes in the media library.
use vstd::prelude::*;

use crate::catalog_builder::has_ignore_marker;
use crate::filename::{episode_ident, episode_ident_spec, find_se2, first_se2_match};
use crate::paths::{extension_of, opt_view, spec_extension};
use crate::json_doc::{json_first_member, json_first_member_of, json_member, json_member_of, JsonField};
use crate::paths::{file_name_of, file_stem_of, spec_file_name, spec_file_stem};
use crate::text::{
    chars_of, chars_eq_str, contains_str, contains_text, extend_chars, extend_str, is_digit,
    string_from_chars,
};
use crate::tmdb::{url_encode, url_encoded};
use vstd::string::StringSliceAdditionalSpecFns;

verus! {

// ---------------------------------------------------------------------------
// Errors
// ---------------------------------------------------------------------------

/// An error that is only a message.
#[derive(Debug, Clone, PartialEq, Eq)]
pub struct BasicError(pub String);

impl BasicError {
    pub fn new(msg: String) -> (res: Self)
        ensures
            res.0 == msg,
    {
        BasicError(msg)
    }

    /// The error, boxed.
    pub fn boxed(msg: String) -> (res: Box<BasicError>)
        ensures
            res.0 == msg,
    {
        Box::new(BasicError(msg))
    }

    /// The message, as the error displays.
    pub fn message(&self) -> (res: String)
        ensures
            res@ == self.0@,
    {
        self.0.clone()
    }
}

/// The only host the importer may move files on.
pub open spec fn allowed_host() -> Seq<char> {
    "homelab"@
}

/// Whether files may be moved on the host named `hostname`: only on the
/// allowed host, else the error that says so.
pub fn check_hostname(hostname: &str) -> (res: Result<(), BasicError>)
    ensures
        res is Ok <==> hostname@ == allowed_host(),
        res matches Err(e) ==> e.0@
            == "Invalid host name. This is to prevent running on the wrong device for testing purposes."@,
{
    let chars = crate::text::chars_of(hostname);
    proof {
        reveal_strlit("homelab");
    }
    if crate::text::chars_eq_str(&chars, "homelab") {
        Ok(())
    } else {
        let msg = String::from_str("Invalid host name. This is to prevent running on the wrong device for testing purposes.");
        Err(BasicError::new(msg))
    }
}

// ---------------------------------------------------------------------------
// Records
// ---------------------------------------------------------------------------

/// A movie file and what the metadata service said of it.
#[derive(Debug, Clone)]
pub struct Movie {
    pub title: String,
    pub year: String,
    pub imdb: String,
    pub src: String,
}

/// A show directory, what the metadata service said of it, and its episodes.
#[derive(Debug, Clone)]
pub struct Show {
    pub title: String,
    pub start_year: String,
    pub tmdb: String,
    pub root_dir: String,
    pub episodes: Vec<Episode>,
}

/// An episode file of a show.
#[derive(Debug, Clone)]
pub struct Episode {
    pub id: String,
    pub src: String,
}

/// The settings of the importer.
#[derive(Debug, Clone)]
pub struct env_t {
    pub src_dir: String,
    pub dst_dir: String,
    pub show_dir_name: String,
    pub movie_dir_name: String,
    pub omdb_key: String,
    pub tmdb_key: String,
    pub cache_dir: String,
}

/// The files found: movies, shows, and the paths that could not be read.
#[derive(Debug, Clone)]
pub struct db_t {
    pub movies: Vec<Movie>,
    pub shows: Vec<Show>,
    pub failed_enumerations: Vec<String>,
}

/// The metadata services the importer queries.
pub struct Api {}

pub open spec fn movie_text(m: Movie) -> Seq<char> {
    m.title@ + " ("@ + m.year@ + ") ["@ + m.imdb@ + "] - ("@ + m.src@ + ")"@
}

pub open spec fn episode_text(e: Episode) -> Seq<char> {
    e.id@ + " -> "@ + e.src@
}

/// The lines of the episodes, each ended by a newline.
pub open spec fn episode_lines_text(eps: Seq<Episode>) -> Seq<char>
    decreases eps.len(),
{
    if eps.len() == 0 {
        Seq::empty()
    } else {
        episode_lines_text(eps.drop_last()) + episode_text(eps.last()) + "\n"@
    }
}

pub open spec fn show_text(s: Show) -> Seq<char> {
    s.title@ + " ("@ + s.start_year@ + ") ["@ + s.tmdb@ + "]\n"@ + episode_lines_text(s.episodes@)
}

impl Movie {
    /// A movie with nothing known yet.
    pub fn new() -> (res: Self)
        ensures
            res.title@.len() == 0,
            res.year@.len() == 0,
            res.imdb@.len() == 0,
            res.src@.len() == 0,
    {
        Movie { title: String::new(), year: String::new(), imdb: String::new(), src: String::new() }
    }

    /// `{title} ({year}) [{imdb}] - ({src})`.
    pub fn describe(&self) -> (res: String)
        ensures
            res@ == movie_text(*self),
    {
        let mut out: Vec<char> = Vec::new();
        extend_str(&mut out, self.title.as_str());
        extend_str(&mut out, " (");
        extend_str(&mut out, self.year.as_str());
        extend_str(&mut out, ") [");
        extend_str(&mut out, self.imdb.as_str());
        extend_str(&mut out, "] - (");
        extend_str(&mut out, self.src.as_str());
        extend_str(&mut out, ")");
        string_from_chars(&out)
    }
}

impl Show {
    /// A show with nothing known yet.
    pub fn new() -> (res: Self)
        ensures
            res.title@.len() == 0,
            res.start_year@.len() == 0,
            res.tmdb@.len() == 0,
            res.root_dir@.len() == 0,
            res.episodes@.len() == 0,
    {
        Show {
            title: String::new(),
            root_dir: String::new(),
            start_year: String::new(),
            tmdb: String::new(),
            episodes: Vec::new(),
        }
    }

    /// `{title} ({start_year}) [{tmdb}]`, then a line per episode.
    pub fn describe(&self) -> (res: String)
        ensures
            res@ == show_text(*self),
    {
        let mut out: Vec<char> = Vec::new();
        extend_str(&mut out, self.title.as_str());
        extend_str(&mut out, " (");
        extend_str(&mut out, self.start_year.as_str());
        extend_str(&mut out, ") [");
        extend_str(&mut out, self.tmdb.as_str());
        extend_str(&mut out, "]\n");
        let ghost head = out@;
        let mut i: usize = 0;
        while i < self.episodes.len()
            invariant
                i <= self.episodes@.len(),
                out@ == head + episode_lines_text(self.episodes@.subrange(0, i as int)),
            decreases self.episodes.len() - i,
        {
            let line = self.episodes[i].describe();
            extend_str(&mut out, line.as_str());
            extend_str(&mut out, "\n");
            assert(self.episodes@.subrange(0, i + 1).drop_last() =~= self.episodes@.subrange(
                0,
                i as int,
            ));
            i = i + 1;
        }
        assert(self.episodes@.subrange(0, i as int) =~= self.episodes@);
        string_from_chars(&out)
    }
}

impl Episode {
    /// An episode record. Its id and source start empty, whatever is given:
    /// the scan fills them in.
    pub fn new(id: String, src: String) -> (res: Self)
        ensures
            res.id@.len() == 0,
            res.src@.len() == 0,
    {
        Episode { id: String::new(), src: String::new() }
    }

    /// `{id} -> {src}`.
    pub fn describe(&self) -> (res: String)
        ensures
            res@ == episode_text(*self),
    {
        let mut out: Vec<char> = Vec::new();
        extend_str(&mut out, self.id.as_str());
        extend_str(&mut out, " -> ");
        extend_str(&mut out, self.src.as_str());
        string_from_chars(&out)
    }
}

impl env_t {
    /// Settings with every value empty.
    pub fn new() -> (res: Self)
        ensures
            res.src_dir@.len() == 0,
            res.dst_dir@.len() == 0,
            res.show_dir_name@.len() == 0,
            res.movie_dir_name@.len() == 0,
            res.omdb_key@.len() == 0,
            res.tmdb_key@.len() == 0,
            res.cache_dir@.len() == 0,
    {
        env_t {
            src_dir: String::new(),
            dst_dir: String::new(),
            show_dir_name: String::new(),
            movie_dir_name: String::new(),
            omdb_key: String::new(),
            tmdb_key: String::new(),
            cache_dir: String::new(),
        }
    }
}

impl db_t {
    /// No files found yet.
    pub fn new() -> (res: Self)
        ensures
            res.movies@.len() == 0,
            res.shows@.len() == 0,
            res.failed_enumerations@.len() == 0,
    {
        db_t { movies: Vec::new(), shows: Vec::new(), failed_enumerations: Vec::new() }
    }
}

// ---------------------------------------------------------------------------
// Where files go
// ---------------------------------------------------------------------------

/// Something that can be moved into the media library.
pub trait MoveableItem {
    /// The file to move.
    fn src(&self) -> String;

    /// Where the file goes below `dst_dir`.
    fn mapped_path(&self, dst_dir: &String) -> Result<String, BasicError>;
}

/// The extension of a path, or nothing when it has none.
pub open spec fn extension_or_empty(path: Seq<char>) -> Seq<char> {
    match spec_extension(path) {
        Some(e) => e,
        None => Seq::empty(),
    }
}

/// `{title} ({year}) [{imdb}]`: how a movie's directory and file are named.
pub open spec fn movie_label(m: Movie) -> Seq<char> {
    m.title@ + " ("@ + m.year@ + ") ["@ + m.imdb@ + "]"@
}

/// `{dst}/{label}/{label}.{ext}`.
pub open spec fn movie_mapped(m: Movie, dst: Seq<char>) -> Seq<char> {
    dst + "/"@ + movie_label(m) + "/"@ + movie_label(m) + "."@ + extension_or_empty(m.src@)
}

/// `{title} ({start_year}) [tmdbid-{tmdb}]`: how a show's directory is named.
pub open spec fn show_label(s: Show) -> Seq<char> {
    s.title@ + " ("@ + s.start_year@ + ") [tmdbid-"@ + s.tmdb@ + "]"@
}

/// Where an episode goes: `{dst}/{show}/Season {ss}/{show} {id}.{ext}`, with
/// `ss` the season digits of the file's first `SddEdd` identifier; `None`
/// when its path has none.
pub open spec fn episode_mapped(e: Episode, s: Show, dst: Seq<char>) -> Option<Seq<char>> {
    match first_se2_match(e.src@, 0) {
        Some(p) => Some(
            dst + "/"@ + show_label(s) + "/"@ + "Season "@ + e.src@.subrange(p + 1, p + 3) + "/"@
                + show_label(s) + " "@ + e.id@ + "."@ + extension_or_empty(e.src@),
        ),
        None => None,
    }
}

fn push_extension(out: &mut Vec<char>, path: &str)
    ensures
        final(out)@ == old(out)@ + extension_or_empty(path@),
{
    match extension_of(path) {
        Some(ext) => extend_str(out, ext.as_str()),
        None => {},
    }
}

fn push_movie_label(out: &mut Vec<char>, m: &Movie)
    ensures
        final(out)@ == old(out)@ + movie_label(*m),
{
    extend_str(out, m.title.as_str());
    extend_str(out, " (");
    extend_str(out, m.year.as_str());
    extend_str(out, ") [");
    extend_str(out, m.imdb.as_str());
    extend_str(out, "]");
}

fn push_show_label(out: &mut Vec<char>, s: &Show)
    ensures
        final(out)@ == old(out)@ + show_label(*s),
{
    extend_str(out, s.title.as_str());
    extend_str(out, " (");
    extend_str(out, s.start_year.as_str());
    extend_str(out, ") [tmdbid-");
    extend_str(out, s.tmdb.as_str());
    extend_str(out, "]");
}

impl Movie {
    /// Where the movie goes below `dst_dir`.
    pub fn movie_path(&self, dst_dir: &String) -> (res: String)
        ensures
            res@ == movie_mapped(*self, dst_dir@),
    {
        let mut out: Vec<char> = Vec::new();
        extend_str(&mut out, dst_dir.as_str());
        extend_str(&mut out, "/");
        push_movie_label(&mut out, self);
        extend_str(&mut out, "/");
        push_movie_label(&mut out, self);
        extend_str(&mut out, ".");
        push_extension(&mut out, self.src.as_str());
        string_from_chars(&out)
    }
}

impl MoveableItem for Movie {
    fn src(&self) -> (res: String)
        ensures
            res@ == self.src@,
    {
        self.src.clone()
    }

    fn mapped_path(&self, dst_dir: &String) -> (res: Result<String, BasicError>)
        ensures
            res matches Ok(p) && p@ == movie_mapped(*self, dst_dir@),
    {
        Ok(self.movie_path(dst_dir))
    }
}

/// The message of an episode whose path has no `SddEdd` identifier.
pub open spec fn missing_ident_text(src: Seq<char>) -> Seq<char> {
    "Failed to find episode identifier `SXXEXX` in file name: "@ + src
}

impl Episode {
    /// Where the episode goes below `dst_dir`, in the library folder of `show`.
    pub fn path_in(&self, show: &Show, dst_dir: &String) -> (res: Result<String, BasicError>)
        ensures
            match episode_mapped(*self, *show, dst_dir@) {
                Some(p) => res matches Ok(r) && r@ == p,
                None => res matches Err(e) && e.0@ == missing_ident_text(self.src@),
            },
    {
        let src = chars_of(self.src.as_str());
        let n = src.len();
        match find_se2(&src) {
            None => {
                let mut msg: Vec<char> = Vec::new();
                extend_str(&mut msg, "Failed to find episode identifier `SXXEXX` in file name: ");
                extend_str(&mut msg, self.src.as_str());
                Err(BasicError(string_from_chars(&msg)))
            },
            Some(p) => {
                let mut out: Vec<char> = Vec::new();
                extend_str(&mut out, dst_dir.as_str());
                extend_str(&mut out, "/");
                push_show_label(&mut out, show);
                extend_str(&mut out, "/");
                extend_str(&mut out, "Season ");
                out.push(src[p + 1]);
                out.push(src[p + 2]);
                assert(seq![src@[p + 1], src@[p + 2]] =~= src@.subrange(p + 1, p + 3));
                extend_str(&mut out, "/");
                push_show_label(&mut out, show);
                extend_str(&mut out, " ");
                extend_str(&mut out, self.id.as_str());
                extend_str(&mut out, ".");
                push_extension(&mut out, self.src.as_str());
                Ok(string_from_chars(&out))
            },
        }
    }
}

/// An episode together with the show it belongs to.
pub struct ShowEpisode<'a> {
    pub show: &'a Show,
    pub episode: &'a Episode,
}

impl<'a> MoveableItem for ShowEpisode<'a> {
    fn src(&self) -> (res: String)
        ensures
            res@ == self.episode.src@,
    {
        self.episode.src.clone()
    }

    fn mapped_path(&self, dst_dir: &String) -> (res: Result<String, BasicError>)
        ensures
            match episode_mapped(*self.episode, *self.show, dst_dir@) {
                Some(p) => res matches Ok(r) && r@ == p,
                None => res matches Err(e) && e.0@ == missing_ident_text(self.episode.src@),
            },
    {
        self.episode.path_in(self.show, dst_dir)
    }
}

// ---------------------------------------------------------------------------
// Settings
// ---------------------------------------------------------------------------

/// The pairs that `dotenv_parser::parse_dotenv` reads from a source, in the
/// order of their keys (the map it returns is sorted); `None` when the source
/// does not parse. A function of the source alone.
pub uninterp spec fn dotenv_pairs(source: Seq<char>) -> Option<Seq<(Seq<char>, Seq<char>)>>;

pub open spec fn pairs_view(v: Seq<(String, String)>) -> Seq<(Seq<char>, Seq<char>)> {
    v.map_values(|p: (String, String)| (p.0@, p.1@))
}

/// `dotenv_parser::parse_dotenv`: the key-value pairs of a `.env` source.
#[verifier::external_body]
fn parse_dotenv_source(source: &str) -> (res: Option<Vec<(String, String)>>)
    ensures
        match res {
            Some(v) => dotenv_pairs(source@) == Some(pairs_view(v@)),
            None => dotenv_pairs(source@) is None,
        },
{
    match dotenv_parser::parse_dotenv(source) {
        Ok(map) => Some(map.into_iter().collect()),
        Err(_) => None,
    }
}

/// The keys the importer reads.
pub open spec fn is_env_key(k: Seq<char>) -> bool {
    ||| k == "SRC_DIR"@
    ||| k == "DST_DIR"@
    ||| k == "JELLYFIN_MOVIE_DIR_NAME"@
    ||| k == "JELLYFIN_SHOW_DIR_NAME"@
    ||| k == "OMDB_APIKEY"@
    ||| k == "TMDB_READ_ACCESS_TOKEN"@
    ||| k == "CACHE_DIR"@
}

/// The value the pairs give `key`: that of the last pair with it, else `default`.
pub open spec fn env_value(
    pairs: Seq<(Seq<char>, Seq<char>)>,
    key: Seq<char>,
    default: Seq<char>,
) -> Seq<char>
    decreases pairs.len(),
{
    if pairs.len() == 0 {
        default
    } else if pairs.last().0 == key {
        pairs.last().1
    } else {
        env_value(pairs.drop_last(), key, default)
    }
}

/// The keys of the pairs that the importer does not read, in order.
pub open spec fn unrecognized_keys(pairs: Seq<(Seq<char>, Seq<char>)>) -> Seq<Seq<char>>
    decreases pairs.len(),
{
    if pairs.len() == 0 {
        Seq::empty()
    } else if is_env_key(pairs.last().0) {
        unrecognized_keys(pairs.drop_last())
    } else {
        unrecognized_keys(pairs.drop_last()).push(pairs.last().0)
    }
}

/// The pairs read from the two sources: the base file, a newline, then the
/// local file; none when they do not parse.
pub open spec fn env_pairs(base_env: Seq<char>, env: Seq<char>) -> Seq<(Seq<char>, Seq<char>)> {
    match dotenv_pairs(base_env + "\n"@ + env) {
        Some(p) => p,
        None => Seq::empty(),
    }
}

pub open spec fn settings_after(
    old: env_t,
    new: env_t,
    pairs: Seq<(Seq<char>, Seq<char>)>,
) -> bool {
    &&& new.src_dir@ == env_value(pairs, "SRC_DIR"@, old.src_dir@)
    &&& new.dst_dir@ == env_value(pairs, "DST_DIR"@, old.dst_dir@)
    &&& new.movie_dir_name@ == env_value(pairs, "JELLYFIN_MOVIE_DIR_NAME"@, old.movie_dir_name@)
    &&& new.show_dir_name@ == env_value(pairs, "JELLYFIN_SHOW_DIR_NAME"@, old.show_dir_name@)
    &&& new.omdb_key@ == env_value(pairs, "OMDB_APIKEY"@, old.omdb_key@)
    &&& new.tmdb_key@ == env_value(pairs, "TMDB_READ_ACCESS_TOKEN"@, old.tmdb_key@)
    &&& new.cache_dir@ == env_value(pairs, "CACHE_DIR"@, old.cache_dir@)
}

proof fn lemma_env_step(
    prev: Seq<(Seq<char>, Seq<char>)>,
    next: Seq<(Seq<char>, Seq<char>)>,
    key: Seq<char>,
    d: Seq<char>,
)
    requires
        next.len() == prev.len() + 1,
        next.drop_last() == prev,
    ensures
        env_value(next, key, d) == if next.last().0 == key {
            next.last().1
        } else {
            env_value(prev, key, d)
        },
{
}

impl env_t {
    /// Takes the settings from the pairs, a later pair overriding an earlier
    /// one; gives back the keys it does not know, in order.
    #[verifier::spinoff_prover]
    #[verifier::rlimit(40)]
    pub fn apply_pairs(&mut self, pairs: Vec<(String, String)>) -> (res: Vec<String>)
        ensures
            settings_after(*old(self), *final(self), pairs_view(pairs@)),
            res@.map_values(|k: String| k@) == unrecognized_keys(pairs_view(pairs@)),
    {
        let ghost start = *self;
        let ghost pv = pairs_view(pairs@);
        let mut unknown: Vec<String> = Vec::new();
        let mut i: usize = 0;
        while i < pairs.len()
            invariant
                i <= pairs@.len(),
                pv == pairs_view(pairs@),
                settings_after(start, *self, pv.subrange(0, i as int)),
                unknown@.map_values(|k: String| k@) == unrecognized_keys(pv.subrange(0, i as int)),
            decreases pairs.len() - i,
        {
            proof {
                reveal_strlit("SRC_DIR");
                reveal_strlit("DST_DIR");
                reveal_strlit("JELLYFIN_MOVIE_DIR_NAME");
                reveal_strlit("JELLYFIN_SHOW_DIR_NAME");
                reveal_strlit("OMDB_APIKEY");
                reveal_strlit("TMDB_READ_ACCESS_TOKEN");
                reveal_strlit("CACHE_DIR");
                assert("SRC_DIR"@[0] != "DST_DIR"@[0]);
                assert("JELLYFIN_SHOW_DIR_NAME"@[0] != "TMDB_READ_ACCESS_TOKEN"@[0]);
                assert("JELLYFIN_MOVIE_DIR_NAME"@[9] != "JELLYFIN_SHOW_DIR_NAME"@[9]);
                assert("CACHE_DIR"@.len() == 9);
                assert("SRC_DIR"@.len() == 7);
                assert("DST_DIR"@.len() == 7);
                assert("OMDB_APIKEY"@.len() == 11);
            }
            let k = chars_of(pairs[i].0.as_str());
            let v = pairs[i].1.clone();
            assert(pv.subrange(0, i + 1).drop_last() =~= pv.subrange(0, i as int));
            assert(pv.subrange(0, i + 1).last() == (pairs@[i as int].0@, pairs@[i as int].1@));
            if crate::text::chars_eq_str(&k, "SRC_DIR") {
                self.src_dir = v;
            } else if crate::text::chars_eq_str(&k, "DST_DIR") {
                self.dst_dir = v;
            } else if crate::text::chars_eq_str(&k, "JELLYFIN_MOVIE_DIR_NAME") {
                self.movie_dir_name = v;
            } else if crate::text::chars_eq_str(&k, "JELLYFIN_SHOW_DIR_NAME") {
                self.show_dir_name = v;
            } else if crate::text::chars_eq_str(&k, "OMDB_APIKEY") {
                self.omdb_key = v;
            } else if crate::text::chars_eq_str(&k, "TMDB_READ_ACCESS_TOKEN") {
                self.tmdb_key = v;
            } else if crate::text::chars_eq_str(&k, "CACHE_DIR") {
                self.cache_dir = v;
            } else {
                let ghost before = unknown@;
                unknown.push(pairs[i].0.clone());
                assert(unknown@.map_values(|k: String| k@) =~= before.map_values(|k: String| k@).push(
                    pairs@[i as int].0@,
                ));
            }
            proof {
                let prev = pv.subrange(0, i as int);
                let next = pv.subrange(0, i + 1);
                lemma_env_step(prev, next, "SRC_DIR"@, start.src_dir@);
                lemma_env_step(prev, next, "DST_DIR"@, start.dst_dir@);
                lemma_env_step(prev, next, "JELLYFIN_MOVIE_DIR_NAME"@, start.movie_dir_name@);
                lemma_env_step(prev, next, "JELLYFIN_SHOW_DIR_NAME"@, start.show_dir_name@);
                lemma_env_step(prev, next, "OMDB_APIKEY"@, start.omdb_key@);
                lemma_env_step(prev, next, "TMDB_READ_ACCESS_TOKEN"@, start.tmdb_key@);
                lemma_env_step(prev, next, "CACHE_DIR"@, start.cache_dir@);
            }
            i = i + 1;
        }
        assert(pv.subrange(0, i as int) =~= pv);
        unknown
    }

    /// Reads the settings from the contents of the base `.env` file and of the
    /// local one (joined by a newline; nothing is read when they do not parse);
    /// gives back the keys it does not know.
    pub fn load_sources(&mut self, base_env_source: &str, env_source: &str) -> (res: Vec<String>)
        ensures
            settings_after(*old(self), *final(self), env_pairs(base_env_source@, env_source@)),
            res@.map_values(|k: String| k@) == unrecognized_keys(
                env_pairs(base_env_source@, env_source@),
            ),
    {
        let mut full: Vec<char> = Vec::new();
        extend_str(&mut full, base_env_source);
        extend_str(&mut full, "\n");
        extend_str(&mut full, env_source);
        let source = string_from_chars(&full);
        let pairs = match parse_dotenv_source(source.as_str()) {
            Some(p) => p,
            None => Vec::new(),
        };
        proof {
            if dotenv_pairs(source@) is None {
                assert(pairs_view(pairs@) =~= Seq::<(Seq<char>, Seq<char>)>::empty());
            }
        }
        self.apply_pairs(pairs)
    }

    /// The directory of movies to import: `{src_dir}/movies`.
    pub fn movies_path(&self) -> (res: String)
        ensures
            res@ == self.src_dir@ + "/movies"@,
    {
        let mut out: Vec<char> = Vec::new();
        extend_str(&mut out, self.src_dir.as_str());
        extend_str(&mut out, "/movies");
        string_from_chars(&out)
    }

    /// The directory of shows to import: `{src_dir}/shows`.
    pub fn shows_path(&self) -> (res: String)
        ensures
            res@ == self.src_dir@ + "/shows"@,
    {
        let mut out: Vec<char> = Vec::new();
        extend_str(&mut out, self.src_dir.as_str());
        extend_str(&mut out, "/shows");
        string_from_chars(&out)
    }

    /// Where imported shows go: `{dst_dir}/{show_dir_name}`.
    pub fn show_library_path(&self) -> (res: String)
        ensures
            res@ == self.dst_dir@ + "/"@ + self.show_dir_name@,
    {
        let mut out: Vec<char> = Vec::new();
        extend_str(&mut out, self.dst_dir.as_str());
        extend_str(&mut out, "/");
        extend_str(&mut out, self.show_dir_name.as_str());
        string_from_chars(&out)
    }
}

// ---------------------------------------------------------------------------
// Scanning the source directories
// ---------------------------------------------------------------------------

/// A directory entry: its path, its file name when that is Unicode, and its kind.
#[derive(Debug, Clone)]
pub struct ScanEntry {
    pub path: String,
    pub name: Option<String>,
    pub is_file: bool,
    pub is_dir: bool,
}

/// A name the importer takes for a video file: it holds one of the usual
/// extensions.
pub open spec fn is_video_name(name: Seq<char>) -> bool {
    ||| contains_text(name, "webm"@)
    ||| contains_text(name, "mp4"@)
    ||| contains_text(name, "mov"@)
    ||| contains_text(name, "mkv"@)
    ||| contains_text(name, "m4v"@)
    ||| contains_text(name, "avi"@)
}

/// The extensions the importer takes a name for a video by: webm, mp4, mov,
/// mkv, m4v and avi.
pub open spec fn importer_video_extensions() -> Seq<Seq<char>> {
    seq![
        seq!['w', 'e', 'b', 'm'],
        seq!['m', 'p', '4'],
        seq!['m', 'o', 'v'],
        seq!['m', 'k', 'v'],
        seq!['m', '4', 'v'],
        seq!['a', 'v', 'i'],
    ]
}

/// A name is taken for a video exactly when one of the six extensions is
/// written somewhere in it (the pattern `(webm|mp4|mov|mkv|m4v|avi)`, not
/// anchored): `Inception (2010).mp4` is a video, as is a name with `.avi`
/// or `mkv` anywhere in it, and a name with none of them is not.
pub proof fn lemma_video_name_has_an_extension(name: Seq<char>)
    ensures
        is_video_name(name) <==> exists|k: int, i: int|
            0 <= k < importer_video_extensions().len() && #[trigger] crate::catalog_builder::written_at(
                name,
                importer_video_extensions()[k],
                i,
            ),
{
    reveal_strlit("webm");
    reveal_strlit("mp4");
    reveal_strlit("mov");
    reveal_strlit("mkv");
    reveal_strlit("m4v");
    reveal_strlit("avi");
    let ex = importer_video_extensions();
    assert("webm"@ =~= ex[0]);
    assert("mp4"@ =~= ex[1]);
    assert("mov"@ =~= ex[2]);
    assert("mkv"@ =~= ex[3]);
    assert("m4v"@ =~= ex[4]);
    assert("avi"@ =~= ex[5]);
    assert forall|w: Seq<char>, i: int| crate::text::occurs_at(name, w, i) <==> crate::catalog_builder::written_at(name, w, i) by {
        crate::catalog_builder::lemma_occurs_at_is_written_at(name, w, i);
    }
    if is_video_name(name) {
        let k: int = if contains_text(name, ex[0]) {
            0
        } else if contains_text(name, ex[1]) {
            1
        } else if contains_text(name, ex[2]) {
            2
        } else if contains_text(name, ex[3]) {
            3
        } else if contains_text(name, ex[4]) {
            4
        } else {
            5
        };
        let i = choose|i: int| crate::text::occurs_at(name, ex[k], i);
        assert(crate::catalog_builder::written_at(name, ex[k], i));
    }
    if exists|k: int, i: int| 0 <= k < ex.len() && #[trigger] crate::catalog_builder::written_at(name, ex[k], i) {
        let (k, i) = choose|k: int, i: int| 0 <= k < ex.len() && #[trigger] crate::catalog_builder::written_at(name, ex[k], i);
        assert(crate::text::occurs_at(name, ex[k], i));
        assert(contains_text(name, ex[k]));
    }
}

fn video_name(name: &str) -> (res: bool)
    ensures
        res == is_video_name(name@),
{
    let c = chars_of(name);
    proof {
        reveal_strlit("webm");
        reveal_strlit("mp4");
        reveal_strlit("mov");
        reveal_strlit("mkv");
        reveal_strlit("m4v");
        reveal_strlit("avi");
    }
    contains_str(&c, "webm") || contains_str(&c, "mp4") || contains_str(&c, "mov")
        || contains_str(&c, "mkv") || contains_str(&c, "m4v") || contains_str(&c, "avi")
}

/// Every entry has a Unicode name.
pub open spec fn named_entries(es: Seq<ScanEntry>) -> bool {
    forall|j: int| 0 <= j < es.len() ==> (#[trigger] es[j]).name is Some
}

/// The paths of the movies of a listing of the movies directory: the files
/// whose names look like videos.
pub open spec fn scanned_movie_paths(es: Seq<ScanEntry>) -> Seq<Seq<char>>
    decreases es.len(),
{
    if es.len() == 0 {
        Seq::empty()
    } else if es.last().is_file && is_video_name(es.last().name.unwrap()@) {
        scanned_movie_paths(es.drop_last()).push(es.last().path@)
    } else {
        scanned_movie_paths(es.drop_last())
    }
}

/// The paths of the shows of a listing of the shows directory: the
/// directories without an ignore marker.
pub open spec fn scanned_show_paths(es: Seq<ScanEntry>) -> Seq<Seq<char>>
    decreases es.len(),
{
    if es.len() == 0 {
        Seq::empty()
    } else if es.last().is_dir && !has_ignore_marker(es.last().name.unwrap()@) {
        scanned_show_paths(es.drop_last()).push(es.last().path@)
    } else {
        scanned_show_paths(es.drop_last())
    }
}

/// `m` is a movie found at `path`, not yet described.
pub open spec fn is_found_movie(m: Movie, path: Seq<char>) -> bool {
    m.src@ == path && m.title@.len() == 0 && m.year@.len() == 0 && m.imdb@.len() == 0
}

/// `s` is a show found at `path`, not yet described nor scanned.
pub open spec fn is_found_show(s: Show, path: Seq<char>) -> bool {
    &&& s.root_dir@ == path
    &&& s.title@.len() == 0
    &&& s.start_year@.len() == 0
    &&& s.tmdb@.len() == 0
    &&& s.episodes@.len() == 0
}

/// The episodes of a listing of a show's directory: the files whose paths
/// hold an identifier `[sS]<digits>[eE]<digits>`, with the id
/// `S<digits>E<digits>` made of the leftmost one's digits, as written.
pub open spec fn scanned_episodes(es: Seq<ScanEntry>) -> Seq<(Seq<char>, Seq<char>)>
    decreases es.len(),
{
    if es.len() == 0 {
        Seq::empty()
    } else {
        let e = es.last();
        let rest = scanned_episodes(es.drop_last());
        if !e.is_dir && e.name is Some {
            match episode_ident_spec(e.path@) {
                Some((season, episode)) => rest.push(
                    (seq!['S'] + season + seq!['E'] + episode, e.path@),
                ),
                None => rest,
            }
        } else {
            rest
        }
    }
}

/// The entries of a show's listing whose names are not Unicode.
pub open spec fn unreadable_paths(es: Seq<ScanEntry>) -> Seq<Seq<char>>
    decreases es.len(),
{
    if es.len() == 0 {
        Seq::empty()
    } else if !es.last().is_dir && es.last().name is None {
        unreadable_paths(es.drop_last()).push(es.last().path@)
    } else {
        unreadable_paths(es.drop_last())
    }
}

impl db_t {
    /// Adds the movies of a listing of the movies directory.
    pub fn add_movies(&mut self, entries: &Vec<ScanEntry>)
        requires
            named_entries(entries@),
        ensures
            final(self).movies@.len() == old(self).movies@.len() + scanned_movie_paths(entries@).len(),
            final(self).movies@.take(old(self).movies@.len() as int) == old(self).movies@,
            forall|k: int|
                0 <= k < scanned_movie_paths(entries@).len() ==> is_found_movie(
                    #[trigger] final(self).movies@[old(self).movies@.len() + k],
                    scanned_movie_paths(entries@)[k],
                ),
            final(self).shows@ == old(self).shows@,
            final(self).failed_enumerations@ == old(self).failed_enumerations@,
    {
        let ghost n0 = self.movies@.len();
        let ghost m0 = self.movies@;
        let mut i: usize = 0;
        while i < entries.len()
            invariant
                i <= entries@.len(),
                named_entries(entries@),
                n0 == m0.len(),
                self.movies@.len() == n0 + scanned_movie_paths(entries@.subrange(0, i as int)).len(),
                self.movies@.take(n0 as int) == m0,
                forall|k: int|
                    0 <= k < scanned_movie_paths(entries@.subrange(0, i as int)).len()
                        ==> is_found_movie(
                        #[trigger] self.movies@[n0 + k],
                        scanned_movie_paths(entries@.subrange(0, i as int))[k],
                    ),
                self.shows@ == old(self).shows@,
                self.failed_enumerations@ == old(self).failed_enumerations@,
            decreases entries.len() - i,
        {
            let e = &entries[i];
            assert(entries@.subrange(0, i + 1).drop_last() =~= entries@.subrange(0, i as int));
            assert(entries@.subrange(0, i + 1).last() == entries@[i as int]);
            assert(e.name is Some);
            let keep = match &e.name {
                Some(name) => e.is_file && video_name(name.as_str()),
                None => false,
            };
            if keep {
                let mut m = Movie::new();
                m.src = e.path.clone();
                let ghost before = self.movies@;
                self.movies.push(m);
                assert(self.movies@.take(n0 as int) =~= before.take(n0 as int));
            }
            i = i + 1;
        }
        assert(entries@.subrange(0, i as int) =~= entries@);
    }

    /// Adds the shows of a listing of the shows directory.
    pub fn add_shows(&mut self, entries: &Vec<ScanEntry>)
        requires
            named_entries(entries@),
        ensures
            final(self).shows@.len() == old(self).shows@.len() + scanned_show_paths(entries@).len(),
            final(self).shows@.take(old(self).shows@.len() as int) == old(self).shows@,
            forall|k: int|
                0 <= k < scanned_show_paths(entries@).len() ==> is_found_show(
                    #[trigger] final(self).shows@[old(self).shows@.len() + k],
                    scanned_show_paths(entries@)[k],
                ),
            final(self).movies@ == old(self).movies@,
            final(self).failed_enumerations@ == old(self).failed_enumerations@,
    {
        let ghost n0 = self.shows@.len();
        let ghost s0 = self.shows@;
        let mut i: usize = 0;
        while i < entries.len()
            invariant
                i <= entries@.len(),
                named_entries(entries@),
                n0 == s0.len(),
                self.shows@.len() == n0 + scanned_show_paths(entries@.subrange(0, i as int)).len(),
                self.shows@.take(n0 as int) == s0,
                forall|k: int|
                    0 <= k < scanned_show_paths(entries@.subrange(0, i as int)).len() ==> is_found_show(
                        #[trigger] self.shows@[n0 + k],
                        scanned_show_paths(entries@.subrange(0, i as int))[k],
                    ),
                self.movies@ == old(self).movies@,
                self.failed_enumerations@ == old(self).failed_enumerations@,
            decreases entries.len() - i,
        {
            let e = &entries[i];
            assert(entries@.subrange(0, i + 1).drop_last() =~= entries@.subrange(0, i as int));
            assert(entries@.subrange(0, i + 1).last() == entries@[i as int]);
            assert(e.name is Some);
            let keep = match &e.name {
                Some(name) => {
                    let c = chars_of(name.as_str());
                    proof {
                        reveal_strlit("ignore");
                        reveal_strlit("temp");
                    }
                    e.is_dir && !(contains_str(&c, "ignore") || contains_str(&c, "temp"))
                },
                None => false,
            };
            if keep {
                let mut s = Show::new();
                s.root_dir = e.path.clone();
                let ghost before = self.shows@;
                self.shows.push(s);
                assert(self.shows@.take(n0 as int) =~= before.take(n0 as int));
            }
            i = i + 1;
        }
        assert(entries@.subrange(0, i as int) =~= entries@);
    }
}

impl Show {
    /// Adds the episodes of a listing of the show's directory (sorted by
    /// path); the entries whose names are not Unicode go to `failed`.
    pub fn add_episodes(&mut self, entries: &Vec<ScanEntry>, failed: &mut Vec<String>)
        ensures
            final(self).episodes@.len() == old(self).episodes@.len() + scanned_episodes(
                entries@,
            ).len(),
            final(self).episodes@.take(old(self).episodes@.len() as int) == old(self).episodes@,
            forall|k: int|
                0 <= k < scanned_episodes(entries@).len() ==> {
                    &&& (#[trigger] final(self).episodes@[old(self).episodes@.len() + k]).id@
                        == scanned_episodes(entries@)[k].0
                    &&& final(self).episodes@[old(self).episodes@.len() + k].src@
                        == scanned_episodes(entries@)[k].1
                },
            final(failed)@.map_values(|p: String| p@) == old(failed)@.map_values(|p: String| p@)
                + unreadable_paths(entries@),
            final(self).title == old(self).title,
            final(self).start_year == old(self).start_year,
            final(self).tmdb == old(self).tmdb,
            final(self).root_dir == old(self).root_dir,
    {
        let ghost n0 = self.episodes@.len();
        let ghost e0 = self.episodes@;
        let ghost f0 = failed@.map_values(|p: String| p@);
        let mut i: usize = 0;
        while i < entries.len()
            invariant
                i <= entries@.len(),
                n0 == e0.len(),
                self.episodes@.len() == n0 + scanned_episodes(entries@.subrange(0, i as int)).len(),
                self.episodes@.take(n0 as int) == e0,
                forall|k: int|
                    0 <= k < scanned_episodes(entries@.subrange(0, i as int)).len() ==> {
                        &&& (#[trigger] self.episodes@[n0 + k]).id@ == scanned_episodes(
                            entries@.subrange(0, i as int),
                        )[k].0
                        &&& self.episodes@[n0 + k].src@ == scanned_episodes(
                            entries@.subrange(0, i as int),
                        )[k].1
                    },
                failed@.map_values(|p: String| p@) == f0 + unreadable_paths(
                    entries@.subrange(0, i as int),
                ),
                self.title == old(self).title,
                self.start_year == old(self).start_year,
                self.tmdb == old(self).tmdb,
                self.root_dir == old(self).root_dir,
            decreases entries.len() - i,
        {
            let e = &entries[i];
            assert(entries@.subrange(0, i + 1).drop_last() =~= entries@.subrange(0, i as int));
            assert(entries@.subrange(0, i + 1).last() == entries@[i as int]);
            if !e.is_dir {
                match &e.name {
                    None => {
                        let ghost before = failed@;
                        failed.push(e.path.clone());
                        assert(failed@.map_values(|p: String| p@) =~= before.map_values(
                            |p: String| p@,
                        ).push(e.path@));
                    },
                    Some(_) => {
                        let chars = chars_of(e.path.as_str());
                        match episode_ident(&chars) {
                            Some((season, episode)) => {
                                let mut id: Vec<char> = Vec::new();
                                id.push('S');
                                extend_chars(&mut id, &season);
                                id.push('E');
                                extend_chars(&mut id, &episode);
                                let ep = Episode {
                                    id: string_from_chars(&id),
                                    src: e.path.clone(),
                                };
                                let ghost before = self.episodes@;
                                self.episodes.push(ep);
                                assert(self.episodes@.take(n0 as int) =~= before.take(n0 as int));
                                assert(id@ =~= seq!['S'] + season@ + seq!['E'] + episode@);
                            },
                            None => {},
                        }
                    },
                }
            }
            i = i + 1;
        }
        assert(entries@.subrange(0, i as int) =~= entries@);
    }
}

// ---------------------------------------------------------------------------
// Queries to the metadata services
// ---------------------------------------------------------------------------

/// Why describing an item from a service's answer failed.
#[derive(Debug)]
pub enum ImportError {
    Basic(BasicError),
    Json(json::Error),
}

/// A search that is an IMDB id: `tt` and a digit at its start.
pub open spec fn is_imdb_search(s: Seq<char>) -> bool {
    s.len() >= 3 && s[0] == 't' && s[1] == 't' && is_digit(s[2])
}

/// The URL that asks OMDB for a movie: by id for an IMDB id, else a search
/// for titles starting with the (percent-encoded) text.
pub open spec fn omdb_movie_url(search: Seq<char>, key: Seq<char>) -> Seq<char> {
    if is_imdb_search(search) {
        "https://www.omdbapi.com/?apikey="@ + key + "&type=movie&i="@ + search
    } else {
        "https://www.omdbapi.com/?apikey="@ + key + "&type=movie&s="@ + url_encoded(
            vstd::utf8::encode_utf8(search),
        ) + "*"@
    }
}

/// The digits at the start of `s`.
pub open spec fn leading_digits(s: Seq<char>) -> Seq<char>
    decreases s.len(),
{
    if s.len() > 0 && is_digit(s[0]) {
        seq![s[0]] + leading_digits(s.drop_first())
    } else {
        Seq::empty()
    }
}

pub(crate) fn leading_digits_of(s: &str) -> (res: String)
    ensures
        res@ == leading_digits(s@),
{
    let c = chars_of(s);
    let mut i: usize = 0;
    while i < c.len() && '0' <= c[i] && c[i] <= '9'
        invariant
            i <= c@.len(),
            forall|j: int| 0 <= j < i ==> is_digit(#[trigger] c@[j]),
        decreases c.len() - i,
    {
        i = i + 1;
    }
    let mut out: Vec<char> = Vec::new();
    let mut j: usize = 0;
    while j < i
        invariant
            j <= i <= c@.len(),
            out@ == c@.subrange(0, j as int),
        decreases i - j,
    {
        out.push(c[j]);
        j = j + 1;
    }
    proof {
        lemma_leading_digits(c@, i as int);
    }
    string_from_chars(&out)
}

proof fn lemma_leading_digits(s: Seq<char>, i: int)
    requires
        0 <= i <= s.len(),
        forall|j: int| 0 <= j < i ==> is_digit(#[trigger] s[j]),
        i == s.len() || !is_digit(s[i]),
    ensures
        leading_digits(s) == s.subrange(0, i),
    decreases i,
{
    if i == 0 {
        assert(s.subrange(0, 0) =~= Seq::<char>::empty());
    } else {
        assert forall|j: int| 0 <= j < i - 1 implies is_digit(#[trigger] s.drop_first()[j]) by {
            assert(s.drop_first()[j] == s[j + 1]);
        }
        lemma_leading_digits(s.drop_first(), i - 1);
        assert(s.subrange(0, i) =~= seq![s[0]] + s.drop_first().subrange(0, i - 1));
    }
}

pub(crate) fn joined(a: &str, b: &str) -> (res: String)
    ensures
        res@ == a@ + b@,
{
    let mut out: Vec<char> = Vec::new();
    extend_str(&mut out, a);
    extend_str(&mut out, b);
    string_from_chars(&out)
}

impl Api {
    /// The URL that asks OMDB for `search`.
    pub fn movie_url(search: &str, omdb_key: &str) -> (res: String)
        ensures
            res@ == omdb_movie_url(search@, omdb_key@),
    {
        let c = chars_of(search);
        let by_id = c.len() >= 3 && c[0] == 't' && c[1] == 't' && '0' <= c[2] && c[2] <= '9';
        let mut out: Vec<char> = Vec::new();
        extend_str(&mut out, "https://www.omdbapi.com/?apikey=");
        extend_str(&mut out, omdb_key);
        if by_id {
            extend_str(&mut out, "&type=movie&i=");
            extend_str(&mut out, search);
        } else {
            extend_str(&mut out, "&type=movie&s=");
            let encoded = url_encode(search);
            extend_str(&mut out, encoded.as_str());
            extend_str(&mut out, "*");
        }
        string_from_chars(&out)
    }

    /// The URL that asks OMDB for a movie searched as `movie_in`, or as the
    /// manual fix given for it.
    pub fn query_for_movie(movie_in: &String, fix: Option<String>, omdb_key: &String) -> (res: String)
        ensures
            res@ == match fix {
                Some(f) => omdb_movie_url(f@, omdb_key@),
                None => omdb_movie_url(movie_in@, omdb_key@),
            },
    {
        match fix {
            Some(f) => Api::movie_url(f.as_str(), omdb_key.as_str()),
            None => Api::movie_url(movie_in.as_str(), omdb_key.as_str()),
        }
    }

    /// The manual fix for `movie` in the contents of the fixes file: the
    /// member named by the movie, as text; an error when the file does not
    /// parse or names no fix.
    pub fn check_override(fixes: &str, movie: &String) -> (res: Result<String, ImportError>)
        ensures
            json_member(fixes@, movie@) is None ==> (res matches Err(e) && e is Json),
            json_member(fixes@, movie@) is Some && json_member(fixes@, movie@).unwrap().0 ==> (res
                matches Err(e) && e matches ImportError::Basic(b) && b.0@
                == "Movie is not hardcoded"@),
            json_member(fixes@, movie@) is Some && !json_member(fixes@, movie@).unwrap().0 ==> (res
                matches Ok(id) && id@ == json_member(fixes@, movie@).unwrap().2),
    {
        match json_member_of(fixes, movie.as_str()) {
            Err(e) => Err(ImportError::Json(e)),
            Ok(f) => {
                if f.is_null {
                    Err(ImportError::Basic(BasicError(String::from_str("Movie is not hardcoded"))))
                } else {
                    Ok(f.text)
                }
            },
        }
    }

    /// The URL that searches TMDB for a show by (percent-encoded) name.
    pub fn query_for_show(show: &String) -> (res: String)
        ensures
            res@ == "https://api.themoviedb.org/3/search/tv?query="@ + url_encoded(
                vstd::utf8::encode_utf8(show@),
            ),
    {
        let encoded = url_encode(show.as_str());
        joined("https://api.themoviedb.org/3/search/tv?query=", encoded.as_str())
    }

    /// The `Authorization` header of a TMDB request.
    pub fn authorization(tmdb_key: &String) -> (res: String)
        ensures
            res@ == "Bearer "@ + tmdb_key@,
    {
        joined("Bearer ", tmdb_key.as_str())
    }
}

/// A field of a movie's answer: from the document itself for a manual fix
/// (searched by id), else from its first search result.
pub open spec fn movie_answer_field(body: Seq<char>, hardcoded: bool, key: Seq<char>) -> Option<
    (bool, bool, Seq<char>, Option<u64>),
> {
    if hardcoded {
        json_member(body, key)
    } else {
        json_first_member(body, "Search"@, key)
    }
}

/// The answer said the search failed: its `Response` is the string `False`.
pub open spec fn answer_refused(body: Seq<char>) -> bool {
    json_member(body, "Response"@) matches Some(r) && r.1 && r.2 == "False"@
}

/// The year of a movie's answer starts with a digit.
pub open spec fn movie_year_readable(body: Seq<char>, hardcoded: bool) -> bool {
    movie_answer_field(body, hardcoded, "Year"@) matches Some(y) ==> leading_digits(y.2).len() > 0
}

pub(crate) fn movie_field(body: &str, hardcoded: bool, key: &str) -> (res: Result<JsonField, json::Error>)
    ensures
        res is Ok <==> movie_answer_field(body@, hardcoded, key@) is Some,
        res matches Ok(f) ==> movie_answer_field(body@, hardcoded, key@) == Some(
            crate::json_doc::field_view(f),
        ),
{
    proof {
        reveal_strlit("Search");
    }
    if hardcoded {
        json_member_of(body, key)
    } else {
        json_first_member_of(body, "Search", key)
    }
}

/// What describing a movie from OMDB's answer `body` does, going from
/// `before` to `after` with the result `res`: no `Response` is a JSON error; a
/// refused search is an error naming the movie; a missing title, id or year
/// is a JSON error; otherwise the title, IMDB id and the digits that start
/// the year are taken. On any error the movie is left as it was.
pub open spec fn movie_info_updated(
    before: Movie,
    after: Movie,
    body: Seq<char>,
    hardcoded: bool,
    res: Result<(), ImportError>,
) -> bool {
    let title = movie_answer_field(body, hardcoded, "Title"@);
    let imdb = movie_answer_field(body, hardcoded, "imdbID"@);
    let year = movie_answer_field(body, hardcoded, "Year"@);
    &&& res is Err ==> after == before
    &&& json_member(body, "Response"@) is None ==> (res matches Err(e) && e is Json)
    &&& answer_refused(body) ==> (res matches Err(e) && e matches ImportError::Basic(b) && b.0@
        == "API Failure for movie: "@ + spec_file_stem(before.src@).unwrap())
    &&& json_member(body, "Response"@) is Some && !answer_refused(body) && (title is None
        || imdb is None || year is None) ==> (res matches Err(e) && e is Json)
    &&& json_member(body, "Response"@) is Some && !answer_refused(body) && title is Some
        && imdb is Some && year is Some ==> (res is Ok && after.title@ == title.unwrap().2
        && after.imdb@ == imdb.unwrap().2 && after.year@ == leading_digits(year.unwrap().2)
        && after.src == before.src)
}

/// What describing a show from TMDB's answer `body` does, going from `before`
/// to `after` with the result `res`: no `total_results` is a JSON error; an
/// answer with no results is an error naming the show; a first result without
/// name, id or start date is a JSON error; otherwise those are taken (the
/// digits that start the date as the year). On any error the show is left as
/// it was.
pub open spec fn show_info_updated(
    before: Show,
    after: Show,
    body: Seq<char>,
    res: Result<(), ImportError>,
) -> bool {
    let name = json_first_member(body, "results"@, "name"@);
    let id = json_first_member(body, "results"@, "id"@);
    let date = json_first_member(body, "results"@, "first_air_date"@);
    &&& res is Err ==> after == before
    &&& json_member(body, "total_results"@) is None ==> (res matches Err(e) && e is Json)
    &&& answer_empty(body) ==> (res matches Err(e) && e matches ImportError::Basic(b) && b.0@
        == "Got no result for movie: "@ + spec_file_name(before.root_dir@).unwrap())
    &&& json_member(body, "total_results"@) is Some && !answer_empty(body) && (name is None
        || id is None || date is None) ==> (res matches Err(e) && e is Json)
    &&& json_member(body, "total_results"@) is Some && !answer_empty(body) && name is Some
        && id is Some && date is Some ==> (res is Ok && after.title@ == name.unwrap().2
        && after.tmdb@ == id.unwrap().2 && after.start_year@ == leading_digits(date.unwrap().2)
        && after.root_dir == before.root_dir && after.episodes == before.episodes)
}

impl Movie {
    /// What the movie is searched as: its file stem.
    pub fn search_query(&self) -> (res: String)
        requires
            spec_file_stem(self.src@) is Some,
        ensures
            res@ == spec_file_stem(self.src@).unwrap(),
    {
        match file_stem_of(self.src.as_str()) {
            Some(s) => s,
            None => String::new(),
        }
    }

    /// Describes the movie from OMDB's answer `body` (to a search by id when
    /// `hardcoded`): its title, IMDB id and the digits that start its year.
    /// A refused search is an error naming the movie; the movie is left as it
    /// was on any error.
    pub fn update_info(&mut self, body: &str, hardcoded: bool) -> (res: Result<(), ImportError>)
        requires
            spec_file_stem(old(self).src@) is Some,
            movie_year_readable(body@, hardcoded),
        ensures
            movie_info_updated(*old(self), *final(self), body@, hardcoded, res),
    {
        proof {
            reveal_strlit("Response");
            reveal_strlit("False");
        }
        let search_term = self.search_query();
        let response = match json_member_of(body, "Response") {
            Ok(f) => f,
            Err(e) => {
                return Err(ImportError::Json(e));
            },
        };
        if response.is_text && chars_eq_str(&chars_of(response.text.as_str()), "False") {
            let msg = joined("API Failure for movie: ", search_term.as_str());
            return Err(ImportError::Basic(BasicError(msg)));
        }
        let title = match movie_field(body, hardcoded, "Title") {
            Ok(f) => f,
            Err(e) => {
                return Err(ImportError::Json(e));
            },
        };
        let imdb = match movie_field(body, hardcoded, "imdbID") {
            Ok(f) => f,
            Err(e) => {
                return Err(ImportError::Json(e));
            },
        };
        let year = match movie_field(body, hardcoded, "Year") {
            Ok(f) => f,
            Err(e) => {
                return Err(ImportError::Json(e));
            },
        };
        self.title = title.text;
        self.imdb = imdb.text;
        self.year = leading_digits_of(year.text.as_str());
        Ok(())
    }

    /// `update_info` where the movie's path has a file stem and the answer's
    /// year can be read; `None`, with the movie left as it was, otherwise.
    pub fn try_update_info(&mut self, body: &str, hardcoded: bool) -> (res: Option<
        Result<(), ImportError>,
    >)
        ensures
            res is None <==> (spec_file_stem(old(self).src@) is None || !movie_year_readable(
                body@,
                hardcoded,
            )),
            res is None ==> *final(self) == *old(self),
            res matches Some(r) ==> movie_info_updated(*old(self), *final(self), body@, hardcoded, r),
    {
        if file_stem_of(self.src.as_str()).is_none() {
            return None;
        }
        match movie_field(body, hardcoded, "Year") {
            Ok(y) => {
                let digits = leading_digits_of(y.text.as_str());
                if digits.unicode_len() == 0 {
                    return None;
                }
            },
            Err(_) => {},
        }
        Some(self.update_info(body, hardcoded))
    }
}

/// The start year of a show's answer starts with a digit.
pub open spec fn show_year_readable(body: Seq<char>) -> bool {
    json_first_member(body, "results"@, "first_air_date"@) matches Some(y) ==> leading_digits(
        y.2,
    ).len() > 0
}

/// The answer found nothing: its `total_results` is no positive number.
pub open spec fn answer_empty(body: Seq<char>) -> bool {
    json_member(body, "total_results"@) matches Some(t) && (t.3 is None || t.3 == Some(0u64))
}

impl Show {
    /// What the show is searched as: the name of its directory.
    pub fn search_query(&self) -> (res: String)
        requires
            spec_file_name(self.root_dir@) is Some,
        ensures
            res@ == spec_file_name(self.root_dir@).unwrap(),
    {
        match file_name_of(self.root_dir.as_str()) {
            Some(s) => s,
            None => String::new(),
        }
    }

    /// Describes the show from TMDB's answer `body`: the name, id and start
    /// year of its first result. An answer with no results is an error naming
    /// the show; the show is left as it was on any error.
    pub fn update_info(&mut self, body: &str) -> (res: Result<(), ImportError>)
        requires
            spec_file_name(old(self).root_dir@) is Some,
            show_year_readable(body@),
        ensures
            show_info_updated(*old(self), *final(self), body@, res),
    {
        proof {
            reveal_strlit("total_results");
        }
        let file_name = self.search_query();
        let total = match json_member_of(body, "total_results") {
            Ok(f) => f,
            Err(e) => {
                return Err(ImportError::Json(e));
            },
        };
        let count: u64 = match total.number {
            Some(n) => n,
            None => 0,
        };
        if count == 0 {
            let msg = joined("Got no result for movie: ", file_name.as_str());
            return Err(ImportError::Basic(BasicError(msg)));
        }
        let name = match json_first_member_of(body, "results", "name") {
            Ok(f) => f,
            Err(e) => {
                return Err(ImportError::Json(e));
            },
        };
        let id = match json_first_member_of(body, "results", "id") {
            Ok(f) => f,
            Err(e) => {
                return Err(ImportError::Json(e));
            },
        };
        let date = match json_first_member_of(body, "results", "first_air_date") {
            Ok(f) => f,
            Err(e) => {
                return Err(ImportError::Json(e));
            },
        };
        self.title = name.text;
        self.tmdb = id.text;
        self.start_year = leading_digits_of(date.text.as_str());
        Ok(())
    }

    /// `update_info` where the show's directory has a name and the answer's
    /// start year can be read; `None`, with the show left as it was, otherwise.
    pub fn try_update_info(&mut self, body: &str) -> (res: Option<Result<(), ImportError>>)
        ensures
            res is None <==> (spec_file_name(old(self).root_dir@) is None || !show_year_readable(
                body@,
            )),
            res is None ==> *final(self) == *old(self),
            res matches Some(r) ==> show_info_updated(*old(self), *final(self), body@, r),
    {
        if file_name_of(self.root_dir.as_str()).is_none() {
            return None;
        }
        match json_first_member_of(body, "results", "first_air_date") {
            Ok(y) => {
                let digits = leading_digits_of(y.text.as_str());
                if digits.unicode_len() == 0 {
                    return None;
                }
            },
            Err(_) => {},
        }
        Some(self.update_info(body))
    }
}

} // verus!
