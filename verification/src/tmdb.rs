//! Searching The Movie Database (TMDB): request URLs, and what its answers
//! become.
use vstd::prelude::*;

use crate::api_client::{ApiSpecificMediaId, QueryResponse, QueryStatus};
use crate::api_error::QueryError;
use vstd::string::StringSliceAdditionalSpecFns;
use crate::text::{
    chars_of, decimal_digits, extend_chars, extend_str, parse_u32, parse_u32_spec, push_decimal,
    string_from_chars,
};

verus! {

/// One result of a TMDB search, with the fields the library reads; the scores
/// of the answer (popularity and votes) are not kept.
/// See <https://developer.themoviedb.org/reference/search-movie>.
#[derive(Debug, Default)]
pub struct TMDBSearchResponse {
    pub adult: bool,
    /// Route of a backdrop image, to append to `https://image.tmdb.org/t/p/w1280`.
    pub backdrop_path: String,
    pub genre_ids: Vec<u32>,
    /// TMDB id of the media.
    pub id: u32,
    pub original_language: String,
    pub original_title: String,
    pub overview: String,
    pub poster_path: String,
    /// YYYY-MM-DD
    pub release_date: String,
    pub softcore: bool,
    pub title: String,
    pub video: Option<bool>,
    pub origin_country: Option<Vec<String>>,
    /// IMDB id of the media; fetched by a second request.
    pub imdb_id: String,
}

/// The external ids TMDB knows of a media item.
/// See <https://developer.themoviedb.org/reference/movie-details>.
#[derive(Debug, Default)]
pub struct TMDBExternalIdsResponse {
    pub id: u32,
    pub imdb_id: Option<String>,
    pub freebase_mid: Option<String>,
    pub freebase_id: Option<String>,
    pub tvdb_id: Option<u32>,
    pub tvrage_id: Option<u32>,
    pub wikidata_id: Option<String>,
    pub facebook_id: Option<String>,
    pub instagram_id: Option<String>,
    pub twitter_id: Option<String>,
}

/// The year of a release date: its first four characters read as a number.
pub open spec fn release_year(date: Seq<char>) -> Option<u32> {
    parse_u32_spec(if date.len() <= 4 {
        date
    } else {
        date.take(4)
    })
}

/// What a search result becomes: incomplete without an IMDB id, unusable
/// without a year, else a response titled and dated by the result. The IMDB
/// id is required but not carried over: the response's `imdb` is `None`.
pub open spec fn search_response_spec(r: TMDBSearchResponse, res: Result<QueryResponse, QueryError>) -> bool {
    if r.imdb_id@.len() == 0 {
        res matches Err(QueryError::TMDBIncompleteResponse)
    } else {
        match release_year(r.release_date@) {
            None => res matches Err(QueryError::TMDBFailedToConvertFromResponse),
            Some(year) => match res {
                Ok(q) => q.title == r.title && q.year == year && q.imdb is None && tmdb_id_is(
                    q.tmdb,
                    decimal_digits(r.id as nat),
                ),
                Err(_) => false,
            },
        }
    }
}

/// Whether `id` is the TMDB id `digits`.
pub open spec fn tmdb_id_is(id: ApiSpecificMediaId, digits: Seq<char>) -> bool {
    match id {
        ApiSpecificMediaId::TMDB(t) => t@ == digits,
        ApiSpecificMediaId::OMDB(_) => false,
    }
}

impl TMDBSearchResponse {
    /// The response this search result gives.
    pub fn try_into(self) -> (res: Result<QueryResponse, QueryError>)
        ensures
            search_response_spec(self, res),
    {
        let imdb_chars = chars_of(self.imdb_id.as_str());
        if imdb_chars.len() == 0 {
            return Err(QueryError::TMDBIncompleteResponse);
        }
        let date = chars_of(self.release_date.as_str());
        let mut collection: Vec<char> = Vec::new();
        let mut i: usize = 0;
        while i < date.len() && i < 4
            invariant
                i <= date.len(),
                i <= 4,
                collection@ =~= date@.take(i as int),
            decreases 4 - i,
        {
            collection.push(date[i]);
            i = i + 1;
        }
        assert(collection@ =~= (if date@.len() <= 4 {
            date@
        } else {
            date@.take(4)
        }));
        let year = match parse_u32(&collection) {
            Some(year) => year,
            None => {
                return Err(QueryError::TMDBFailedToConvertFromResponse);
            },
        };
        let mut tmdb: Vec<char> = Vec::new();
        push_decimal(self.id, &mut tmdb);
        let imdb: Option<String> = None;
        Ok(
            QueryResponse {
                title: self.title,
                year,
                imdb,
                tmdb: ApiSpecificMediaId::TMDB(string_from_chars(&tmdb)),
            },
        )
    }
}

// ---------------------------------------------------------------------------
// Request URLs
// ---------------------------------------------------------------------------

pub open spec fn is_unreserved(b: u8) -> bool {
    ||| (0x30 <= b && b <= 0x39)
    ||| (0x41 <= b && b <= 0x5a)
    ||| (0x61 <= b && b <= 0x7a)
    ||| b == 0x2d
    ||| b == 0x2e
    ||| b == 0x5f
    ||| b == 0x7e
}

/// Uppercase hexadecimal digit of `d < 16`.
pub open spec fn hex_digit(d: u8) -> char {
    if d < 10 {
        ((0x30 + d) as u8) as char
    } else {
        ((0x41 + d - 10) as u8) as char
    }
}

/// Percent-encoding: every byte but ASCII letters, digits and `-._~` becomes
/// `%` and two uppercase hexadecimal digits.
pub open spec fn url_encoded(bytes: Seq<u8>) -> Seq<char>
    decreases bytes.len(),
{
    if bytes.len() == 0 {
        Seq::empty()
    } else {
        let b = bytes.last();
        url_encoded(bytes.drop_last()) + if is_unreserved(b) {
            seq![b as char]
        } else {
            seq!['%', hex_digit(b / 16), hex_digit(b % 16)]
        }
    }
}

/// `urlencoding::encode`: percent-encodes the UTF-8 bytes of `data`.
#[verifier::external_body]
pub(crate) fn url_encode(data: &str) -> (res: String)
    ensures
        res@ == url_encoded(data.spec_bytes()),
{
    urlencoding::encode(data).into_owned()
}

/// The URL that searches TMDB for a movie by (percent-encoded) name.
pub fn movie_search_url(file_stem: &str, key: &str) -> (res: String)
    ensures
        res@ == "https://api.themoviedb.org/3/search/movie?query="@ + url_encoded(
            file_stem.spec_bytes(),
        ) + "&api_key="@ + key@,
{
    search_url("https://api.themoviedb.org/3/search/movie?query=", file_stem, key)
}

/// The URL that searches TMDB for a show by (percent-encoded) name.
pub fn show_search_url(file_stem: &str, key: &str) -> (res: String)
    ensures
        res@ == "https://api.themoviedb.org/3/search/tv?query="@ + url_encoded(
            file_stem.spec_bytes(),
        ) + "&api_key="@ + key@,
{
    search_url("https://api.themoviedb.org/3/search/tv?query=", file_stem, key)
}

fn search_url(base: &str, name: &str, key: &str) -> (res: String)
    ensures
        res@ == base@ + url_encoded(name.spec_bytes()) + "&api_key="@ + key@,
{
    let encoded = url_encode(name);
    let mut out: Vec<char> = Vec::new();
    extend_str(&mut out, base);
    extend_str(&mut out, encoded.as_str());
    extend_str(&mut out, "&api_key=");
    extend_str(&mut out, key);
    string_from_chars(&out)
}

/// Whether a search is for a movie or for a show.
#[derive(Debug, Clone, Copy, PartialEq, Eq, Structural)]
pub enum SearchKind {
    Movie,
    Show,
}

pub open spec fn kind_segment(kind: SearchKind) -> Seq<char> {
    match kind {
        SearchKind::Movie => "movie"@,
        SearchKind::Show => "tv"@,
    }
}

/// The URL that asks TMDB for the external ids (IMDB among them) of an item.
pub fn external_ids_url(kind: SearchKind, id: u32, key: &str) -> (res: String)
    ensures
        res@ == "https://api.themoviedb.org/3/"@ + kind_segment(kind) + "/"@ + decimal_digits(
            id as nat,
        ) + "/external_ids?api_key="@ + key@,
{
    let mut out: Vec<char> = Vec::new();
    extend_str(&mut out, "https://api.themoviedb.org/3/");
    match kind {
        SearchKind::Movie => extend_str(&mut out, "movie"),
        SearchKind::Show => extend_str(&mut out, "tv"),
    }
    extend_str(&mut out, "/");
    push_decimal(id, &mut out);
    extend_str(&mut out, "/external_ids?api_key=");
    extend_str(&mut out, key);
    string_from_chars(&out)
}

// ---------------------------------------------------------------------------
// The steps of a search
// ---------------------------------------------------------------------------

/// A search cannot start without an API key.
pub fn check_key(key: &str) -> (res: Option<QueryStatus>)
    ensures
        key@.len() == 0 ==> res matches Some(QueryStatus::Failed(QueryError::UnsetApiKey)),
        key@.len() > 0 ==> res is None,
{
    if key.unicode_len() == 0 {
        Some(QueryStatus::Failed(QueryError::UnsetApiKey))
    } else {
        None
    }
}

/// The first result of a search answer, given whether the answer counted no
/// result and what reading its first result gave.
pub fn first_result(no_results: bool, first: Result<TMDBSearchResponse, serde_json::Error>) -> (res:
    Result<TMDBSearchResponse, QueryStatus>)
    ensures
        no_results ==> res matches Err(QueryStatus::Failed(QueryError::NoSearchResultsFromApi)),
        !no_results ==> match first {
            Ok(r) => res == Ok::<TMDBSearchResponse, QueryStatus>(r),
            Err(e) => res == Err::<TMDBSearchResponse, QueryStatus>(
                QueryStatus::Failed(QueryError::SerdeDeserializeError(e)),
            ),
        },
{
    if no_results {
        return Err(QueryStatus::Failed(QueryError::NoSearchResultsFromApi));
    }
    match first {
        Ok(r) => Ok(r),
        Err(e) => Err(QueryStatus::Failed(QueryError::SerdeDeserializeError(e))),
    }
}

/// The IMDB id a search result carries once the external ids have been asked
/// for: the id they hold (none: empty) when the request succeeded, else the
/// result's own.
pub open spec fn completed_imdb_id(r: TMDBSearchResponse, ext: Option<TMDBExternalIdsResponse>) -> Seq<char> {
    match ext {
        Some(e) => match e.imdb_id {
            Some(id) => id@,
            None => Seq::empty(),
        },
        None => r.imdb_id@,
    }
}

/// The status a search ends with, given its first result and the answer of the
/// external-ids request (`None` when that request failed).
pub fn finish_search(out_query: TMDBSearchResponse, external_ids: Option<TMDBExternalIdsResponse>) -> (res: QueryStatus)
    ensures
        ({
            let imdb = completed_imdb_id(out_query, external_ids);
            match res {
                QueryStatus::Success(q) => imdb.len() > 0 && release_year(out_query.release_date@)
                    == Some(q.year) && q.title == out_query.title && q.imdb is None && tmdb_id_is(
                    q.tmdb,
                    decimal_digits(out_query.id as nat),
                ),
                QueryStatus::Failed(e) => if imdb.len() == 0 {
                    e is TMDBIncompleteResponse
                } else {
                    release_year(out_query.release_date@) is None && e is TMDBFailedToConvertFromResponse
                },
                _ => false,
            }
        }),
{
    let mut out_query = out_query;
    match external_ids {
        Some(ids) => {
            out_query.imdb_id = match ids.imdb_id {
                Some(id) => id,
                None => String::new(),
            };
        },
        None => {},
    }
    match out_query.try_into() {
        Ok(r) => QueryStatus::Success(r),
        Err(e) => QueryStatus::Failed(e),
    }
}

} // verus!
