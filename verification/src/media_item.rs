//! Media items found on disk: movies (files), shows (directories) and episodes
//! (files inside a show), with what their file names say about them.
use vstd::prelude::*;
use std::sync::Arc;

use crate::filename::{
    collect_tags, episode_ident, episode_ident_spec, extract_tags_spec, remove_first_id,
    strip_decoration, strip_tags, strip_years, trim_search_term_spec,
};
use crate::paths::{file_name_of, file_stem_of, spec_file_name, spec_file_stem};
use crate::text::{
    chars_of, decimal_digits, parse_u32, parse_u32_spec, push_decimal, push_decimal_padded,
    string_from_chars, trim, zero_pad,
};

verus! {

#[derive(Debug, Clone, PartialEq, Eq, Structural)]
pub enum MediaCreateError {
    FailedToCreateMediaItem,
    PathNotUnicode,
    IncorrectFileTypeSupplied,
    EpisodeIncorrectFormat,
    EpisodeFailedToParseSeason,
}

impl MediaCreateError {
    /// The variant's name, as `{:?}` writes it.
    pub fn debug_name(&self) -> (res: &'static str)
        ensures
            res@ == media_create_error_name(*self),
    {
        proof {
            reveal_strlit("FailedToCreateMediaItem");
            reveal_strlit("PathNotUnicode");
            reveal_strlit("IncorrectFileTypeSupplied");
            reveal_strlit("EpisodeIncorrectFormat");
            reveal_strlit("EpisodeFailedToParseSeason");
        }
        match self {
            MediaCreateError::FailedToCreateMediaItem => "FailedToCreateMediaItem",
            MediaCreateError::PathNotUnicode => "PathNotUnicode",
            MediaCreateError::IncorrectFileTypeSupplied => "IncorrectFileTypeSupplied",
            MediaCreateError::EpisodeIncorrectFormat => "EpisodeIncorrectFormat",
            MediaCreateError::EpisodeFailedToParseSeason => "EpisodeFailedToParseSeason",
        }
    }
}

pub open spec fn media_create_error_name(e: MediaCreateError) -> Seq<char> {
    match e {
        MediaCreateError::FailedToCreateMediaItem => "FailedToCreateMediaItem"@,
        MediaCreateError::PathNotUnicode => "PathNotUnicode"@,
        MediaCreateError::IncorrectFileTypeSupplied => "IncorrectFileTypeSupplied"@,
        MediaCreateError::EpisodeIncorrectFormat => "EpisodeIncorrectFormat"@,
        MediaCreateError::EpisodeFailedToParseSeason => "EpisodeFailedToParseSeason"@,
    }
}

/// A movie, show or episode; shared, since catalogs and queries hold the same items.
#[derive(Debug, Clone)]
pub enum MediaItem {
    Movie(Arc<Movie>),
    Show(Arc<Show>),
    Episode(Arc<Episode>),
}

impl MediaItem {
    /// Well-formed: a show's directory has a file name.
    pub open spec fn wf(&self) -> bool {
        match self {
            MediaItem::Show(show) => show.wf(),
            _ => true,
        }
    }

    /// The label of the item before any query has resolved it.
    pub open spec fn raw_label_spec(&self) -> Seq<char> {
        match self {
            MediaItem::Movie(movie) => movie.search_term@,
            MediaItem::Show(show) => spec_file_name(show.src@).unwrap(),
            MediaItem::Episode(ep) => episode_id_text(ep.id),
        }
    }

    /// Whether the item has a label: a show's directory must have a name.
    pub fn is_labelled(&self) -> (res: bool)
        ensures
            res == self.wf(),
    {
        match self {
            MediaItem::Show(show) => file_name_of(show.src.as_str()).is_some(),
            _ => true,
        }
    }

    /// The raw label, where the item has one.
    pub fn try_raw_media_label(&self) -> (res: Option<String>)
        ensures
            self.wf() ==> (res matches Some(l) && l@ == self.raw_label_spec()),
            !self.wf() ==> res is None,
    {
        if self.is_labelled() {
            Some(self.raw_media_label())
        } else {
            None
        }
    }

    pub fn raw_media_label(&self) -> (res: String)
        requires
            self.wf(),
        ensures
            res@ == self.raw_label_spec(),
    {
        match self {
            MediaItem::Movie(movie) => movie.raw_media_label(),
            MediaItem::Show(show) => show.raw_media_label(),
            MediaItem::Episode(ep) => ep.raw_media_label(),
        }
    }
}

/// Trims a file or directory name into something to search for: bracketed and
/// parenthesised tags, a trailing hyphen and surrounding whitespace go.
///
/// - `Mission: Impossible III - [dvd]` gives `Mission: Impossible III`
/// - `Pirates of the Caribbean - At World's End (2007) [tt0449088] [Bluray-1080p]`
///   gives `Pirates of the Caribbean - At World's End`
pub fn auto_trim_search_term(term: &str) -> (res: String)
    ensures
        res@ == trim_search_term_spec(term@),
{
    let chars = chars_of(term);
    let no_tags = strip_tags(&chars);
    let no_decoration = strip_decoration(&no_tags);
    let trimmed = trim(&no_decoration);
    string_from_chars(&trimmed)
}

/// The tags of a file name that a media server reads: the contents of its
/// bracketed tags, once year markers and the first id marker are gone.
pub fn tag_extract(term: &str) -> (res: Vec<String>)
    ensures
        res@.map_values(|t: String| t@) == extract_tags_spec(term@),
{
    let chars = chars_of(term);
    let minus_year = strip_years(&chars);
    let minus_year_and_id = remove_first_id(&minus_year);
    collect_tags(&minus_year_and_id)
}

#[derive(Debug)]
pub struct Movie {
    pub src: String,
    pub search_term: String,
    pub tags: Vec<String>,
    /// The identity the catalog gave the movie (0 until it gives one).
    pub uid: u64,
}

impl Movie {
    /// The movie read from the file at `path`: its file stem, trimmed, is the
    /// search term, and the stem's tags are its tags.
    pub open spec fn is_movie_of(&self, path: Seq<char>) -> bool {
        &&& spec_file_stem(path) is Some
        &&& self.src@ == path
        &&& self.search_term@ == trim_search_term_spec(spec_file_stem(path).unwrap())
        &&& self.tags@.map_values(|t: String| t@) == extract_tags_spec(
            spec_file_stem(path).unwrap(),
        )
    }

    /// The movie with the identity `uid`.
    pub fn with_uid(self, uid: u64) -> (res: Self)
        ensures
            res.src == self.src,
            res.search_term == self.search_term,
            res.tags == self.tags,
            res.uid == uid,
    {
        Movie { uid, ..self }
    }

    /// A movie for the file at `path` (`None` when the path is not valid
    /// Unicode); its file stem gives the search term and tags. Its identity
    /// number is 0 until a catalog gives it one.
    pub fn new(path: Option<String>) -> (res: Result<Self, MediaCreateError>)
        ensures
            path is None ==> res == Err::<Movie, MediaCreateError>(MediaCreateError::PathNotUnicode),
            path is Some && spec_file_stem(path.unwrap()@) is None ==> res == Err::<
                Movie,
                MediaCreateError,
            >(MediaCreateError::IncorrectFileTypeSupplied),
            path is Some && spec_file_stem(path.unwrap()@) is Some ==> (res matches Ok(movie)
                && movie.is_movie_of(path.unwrap()@) && movie.uid == 0),
    {
        let path = match path {
            Some(p) => p,
            None => {
                return Err(MediaCreateError::PathNotUnicode);
            },
        };
        let stem = match file_stem_of(path.as_str()) {
            Some(stem) => stem,
            None => {
                return Err(MediaCreateError::IncorrectFileTypeSupplied);
            },
        };
        let search_term = auto_trim_search_term(stem.as_str());
        let tags = tag_extract(stem.as_str());
        Ok(Movie { src: path, search_term, tags, uid: 0 })
    }

    pub fn raw_media_label(&self) -> (res: String)
        ensures
            res@ == self.search_term@,
    {
        self.search_term.clone()
    }
}

#[derive(Debug)]
pub struct Show {
    /// The directory holding the show.
    pub src: String,
    pub episodes: Vec<Arc<Episode>>,
    pub search_term: String,
    /// The identity the catalog gave the show (0 until it gives one).
    pub uid: u64,
}

impl Show {
    pub open spec fn wf(&self) -> bool {
        spec_file_name(self.src@) is Some
    }

    /// The show read from the directory at `path`, with no episodes yet: its
    /// stem, trimmed, is the search term.
    pub open spec fn is_show_of(&self, path: Seq<char>) -> bool {
        &&& spec_file_stem(path) is Some
        &&& self.src@ == path
        &&& self.search_term@ == trim_search_term_spec(spec_file_stem(path).unwrap())
        &&& self.episodes@.len() == 0
        &&& self.wf()
    }

    /// The show with the identity `uid`.
    pub fn with_uid(self, uid: u64) -> (res: Self)
        ensures
            res.src == self.src,
            res.episodes == self.episodes,
            res.search_term == self.search_term,
            res.uid == uid,
    {
        Show { uid, ..self }
    }

    /// A show for the directory at `path` (`None` when the path is not valid
    /// Unicode); its stem gives the search term. Its identity number is 0
    /// until a catalog gives it one.
    pub fn new(path: Option<String>) -> (res: Result<Self, MediaCreateError>)
        ensures
            path is None ==> res == Err::<Show, MediaCreateError>(MediaCreateError::PathNotUnicode),
            path is Some && spec_file_stem(path.unwrap()@) is None ==> res == Err::<
                Show,
                MediaCreateError,
            >(MediaCreateError::IncorrectFileTypeSupplied),
            path is Some && spec_file_stem(path.unwrap()@) is Some ==> (res matches Ok(show)
                && show.is_show_of(path.unwrap()@) && show.uid == 0),
    {
        let path = match path {
            Some(p) => p,
            None => {
                return Err(MediaCreateError::PathNotUnicode);
            },
        };
        let stem = match file_stem_of(path.as_str()) {
            Some(stem) => stem,
            None => {
                return Err(MediaCreateError::IncorrectFileTypeSupplied);
            },
        };
        let search_term = auto_trim_search_term(stem.as_str());
        Ok(Show { src: path, episodes: Vec::new(), search_term, uid: 0 })
    }

    pub fn raw_media_label(&self) -> (res: String)
        requires
            self.wf(),
        ensures
            res@ == spec_file_name(self.src@).unwrap(),
    {
        match file_name_of(self.src.as_str()) {
            Some(name) => name,
            None => {
                assert(false);
                String::new()
            },
        }
    }
}

#[derive(Debug, Clone, Copy, PartialEq, Eq, Structural)]
pub enum EpisodeId {
    Traditional { season: u32, episode: u32 },
    Anime { episode: u32 },
}

/// How an episode id is written: `S01E02`, or the bare episode number.
pub open spec fn episode_id_text(id: EpisodeId) -> Seq<char> {
    match id {
        EpisodeId::Traditional { season, episode } => seq!['S'] + zero_pad(
            decimal_digits(season as nat),
            2,
        ) + seq!['E'] + zero_pad(decimal_digits(episode as nat), 2),
        EpisodeId::Anime { episode } => decimal_digits(episode as nat),
    }
}

/// An episode id written out and read back as a path is the same id: the
/// text `SxxEyy` of season `xx`, episode `yy` names that season and episode.
pub proof fn lemma_episode_id_text_roundtrip(season: u32, episode: u32)
    ensures
        episode_id_of_path(episode_id_text(EpisodeId::Traditional { season, episode })) == Some(
            EpisodeId::Traditional { season, episode },
        ),
{
    let a = zero_pad(decimal_digits(season as nat), 2);
    let b = zero_pad(decimal_digits(episode as nat), 2);
    crate::text::lemma_decimal_digits(season as nat);
    crate::text::lemma_decimal_digits(episode as nat);
    crate::text::lemma_zero_pad(decimal_digits(season as nat), 2);
    crate::text::lemma_zero_pad(decimal_digits(episode as nat), 2);
    let t = seq!['S'] + a + seq!['E'] + b;
    assert(t =~= episode_id_text(EpisodeId::Traditional { season, episode }));
    let q: int = 1 + a.len() as int;
    assert forall|j: int| 1 <= j < q implies crate::text::is_digit(#[trigger] t[j]) by {
        assert(t[j] == a[j - 1]);
    }
    assert(t[q] == 'E');
    crate::filename::lemma_digit_run_exact(t, 1, a.len() as int);
    assert forall|j: int| q + 1 <= j < t.len() implies crate::text::is_digit(#[trigger] t[j]) by {
        assert(t[j] == b[j - q - 1]);
    }
    crate::filename::lemma_digit_run_exact(t, q + 1, b.len() as int);
    assert(crate::filename::se_match_at(t, 0));
    assert(crate::filename::first_se_match(t, 0) == Some(0int));
    assert(crate::filename::se_season_digits(t, 0) =~= a);
    assert(crate::filename::se_episode_digits(t, 0) =~= b);
    assert(crate::text::is_digit(a[0]));
    assert(crate::text::is_digit(b[0]));
    assert(parse_u32_spec(a) == Some(season));
    assert(parse_u32_spec(b) == Some(episode));
}

impl EpisodeId {
    pub fn to_string(&self) -> (res: String)
        ensures
            res@ == episode_id_text(*self),
    {
        let mut out: Vec<char> = Vec::new();
        match self {
            EpisodeId::Traditional { season, episode } => {
                out.push('S');
                push_decimal_padded(*season, 2, &mut out);
                out.push('E');
                push_decimal_padded(*episode, 2, &mut out);
                assert(out@ =~= episode_id_text(*self));
            },
            EpisodeId::Anime { episode } => {
                push_decimal(*episode, &mut out);
                assert(out@ =~= episode_id_text(*self));
            },
        }
        string_from_chars(&out)
    }

    pub fn into_string(self) -> (res: String)
        ensures
            res@ == episode_id_text(self),
    {
        self.to_string()
    }
}

#[derive(Debug)]
pub struct Episode {
    pub src: String,
    pub id: EpisodeId,
    /// The directory of the show the episode belongs to.
    pub parent: String,
    /// The identity the catalog gave the episode (0 until it gives one).
    pub uid: u64,
}

/// The episode id a path names, when its identifier's numbers fit a `u32`.
pub open spec fn episode_id_of_path(path: Seq<char>) -> Option<EpisodeId> {
    match episode_ident_spec(path) {
        Some((season, episode)) => Some(
            EpisodeId::Traditional {
                season: parse_u32_spec(season).unwrap(),
                episode: parse_u32_spec(episode).unwrap(),
            },
        ),
        None => None,
    }
}

/// The numbers of the leftmost episode identifier of `path` fit a `u32`.
pub open spec fn episode_numbers_fit(path: Seq<char>) -> bool {
    match episode_ident_spec(path) {
        Some((season, episode)) => parse_u32_spec(season) is Some && parse_u32_spec(episode) is Some,
        None => true,
    }
}

impl Episode {
    /// The episode with the identity `uid`.
    pub fn with_uid(self, uid: u64) -> (res: Self)
        ensures
            res.src == self.src,
            res.id == self.id,
            res.parent == self.parent,
            res.uid == uid,
    {
        Episode { uid, ..self }
    }

    /// An episode for the file at `path` (`None` when the path is not valid
    /// Unicode; `is_file` says whether it is a file), read from the leftmost
    /// `SxxEyy` identifier of the path. Its identity number is 0 until a
    /// catalog gives it one.
    pub fn new(path: Option<String>, is_file: bool, parent: String) -> (res: Result<
        Self,
        MediaCreateError,
    >)
        requires
            path is Some ==> episode_numbers_fit(path.unwrap()@),
        ensures
            path is None ==> res == Err::<Episode, MediaCreateError>(
                MediaCreateError::PathNotUnicode,
            ),
            path is Some && !is_file ==> res == Err::<Episode, MediaCreateError>(
                MediaCreateError::IncorrectFileTypeSupplied,
            ),
            path is Some && is_file && episode_id_of_path(path.unwrap()@) is None ==> res == Err::<
                Episode,
                MediaCreateError,
            >(MediaCreateError::EpisodeIncorrectFormat),
            path is Some && is_file && episode_id_of_path(path.unwrap()@) is Some ==> (res matches Ok(
                ep,
            ) && ep.src@ == path.unwrap()@ && ep.id == episode_id_of_path(path.unwrap()@).unwrap()
                && ep.parent@ == parent@ && ep.uid == 0),
    {
        let path = match path {
            Some(p) => p,
            None => {
                return Err(MediaCreateError::PathNotUnicode);
            },
        };
        if !is_file {
            return Err(MediaCreateError::IncorrectFileTypeSupplied);
        }
        let chars = chars_of(path.as_str());
        match episode_ident(&chars) {
            None => Err(MediaCreateError::EpisodeIncorrectFormat),
            Some((season_digits, episode_digits)) => {
                let season = parse_u32(&season_digits);
                let episode = parse_u32(&episode_digits);
                match (season, episode) {
                    (Some(season), Some(episode)) => {
                        let id = EpisodeId::Traditional { season, episode };
                        Ok(Episode { src: path, id, parent, uid: 0 })
                    },
                    _ => {
                        assert(false);
                        Err(MediaCreateError::EpisodeFailedToParseSeason)
                    },
                }
            },
        }
    }

    pub fn raw_media_label(&self) -> (res: String)
        ensures
            res@ == episode_id_text(self.id),
    {
        self.id.to_string()
    }
}

/// Something that can be moved into the media library.
pub trait Movable {
    type Error;

    /// Moves the item to its place in the library.
    fn relocate(&self) -> Result<(), Self::Error>;

    /// Where the item belongs in the library.
    fn get_mapped_path(&self) -> Result<String, Self::Error>;
}

} // verus!
