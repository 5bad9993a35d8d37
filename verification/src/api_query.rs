//! Querying OMDB for movies and TMDB for shows over blocking HTTP: the
//! requests to make, and what their answers say of each item.
use vstd::prelude::*;

use crate::filename::{episode_ident, episode_ident_spec};
use crate::importer::{
    answer_refused, joined, leading_digits, leading_digits_of, movie_answer_field, movie_field,
    omdb_movie_url, Api,
};
use crate::json_doc::{json_first_member, json_first_member_of, json_member, json_member_of};
use crate::text::{chars_of, chars_eq_str, extend_chars, string_from_chars};
use crate::tmdb::{url_encode, url_encoded};

verus! {

/// Why a query failed.
#[derive(Debug, Clone, PartialEq, Eq)]
pub enum QueryError {
    /// For tree nodes that are neither movie, show nor episode.
    CantQueryOnType,
    /// The API key is not set.
    UnsetApiKey,
    ReqwestBuilder,
    ReqwestRedirect,
    ReqwestStatus,
    ReqwestTimeout,
    ReqwestRequest,
    ReqwestConnect,
    ReqwestBody,
    ReqwestDecode,
    ReqwestUpgrade,
    ReqwestUnknown,
    JsonParseError,
    FailedToQueryApi,
    NoSearchResultsFromApi,
    /// The answer, pretty-printed, from which nothing could be taken.
    FailedToExtractApiData(String),
}

/// What kind of failure a `reqwest::Error` reports, as its `is_*` methods say.
#[derive(Debug, Clone, Copy)]
pub struct RequestFailureKind {
    pub builder: bool,
    pub redirect: bool,
    pub status: bool,
    pub timeout: bool,
    pub request: bool,
    pub connect: bool,
    pub body: bool,
    pub decode: bool,
    pub upgrade: bool,
}

/// `reqwest::Error::is_builder`, `is_redirect`, `is_status`, `is_timeout`,
/// `is_request`, `is_connect`, `is_body`, `is_decode` and `is_upgrade`.
/// Nothing is stated of them: they depend on how the request failed.
#[verifier::external_body]
fn request_failure_kind(e: &reqwest::Error) -> (res: RequestFailureKind) {
    RequestFailureKind {
        builder: e.is_builder(),
        redirect: e.is_redirect(),
        status: e.is_status(),
        timeout: e.is_timeout(),
        request: e.is_request(),
        connect: e.is_connect(),
        body: e.is_body(),
        decode: e.is_decode(),
        upgrade: e.is_upgrade(),
    }
}

/// The error for a failed request of the given kind: the first kind that
/// holds, in the order of the fields.
pub open spec fn request_error(k: RequestFailureKind) -> QueryError {
    if k.builder {
        QueryError::ReqwestBuilder
    } else if k.redirect {
        QueryError::ReqwestRedirect
    } else if k.status {
        QueryError::ReqwestStatus
    } else if k.timeout {
        QueryError::ReqwestTimeout
    } else if k.request {
        QueryError::ReqwestRequest
    } else if k.connect {
        QueryError::ReqwestConnect
    } else if k.body {
        QueryError::ReqwestBody
    } else if k.decode {
        QueryError::ReqwestDecode
    } else if k.upgrade {
        QueryError::ReqwestUpgrade
    } else {
        QueryError::ReqwestUnknown
    }
}

impl QueryError {
    pub fn from_request_kind(k: RequestFailureKind) -> (res: QueryError)
        ensures
            res == request_error(k),
    {
        if k.builder {
            QueryError::ReqwestBuilder
        } else if k.redirect {
            QueryError::ReqwestRedirect
        } else if k.status {
            QueryError::ReqwestStatus
        } else if k.timeout {
            QueryError::ReqwestTimeout
        } else if k.request {
            QueryError::ReqwestRequest
        } else if k.connect {
            QueryError::ReqwestConnect
        } else if k.body {
            QueryError::ReqwestBody
        } else if k.decode {
            QueryError::ReqwestDecode
        } else if k.upgrade {
            QueryError::ReqwestUpgrade
        } else {
            QueryError::ReqwestUnknown
        }
    }

    /// The error for a failed request.
    pub fn from_reqwest(value: reqwest::Error) -> (res: QueryError)
        ensures
            exists|k: RequestFailureKind| res == request_error(k),
    {
        let k = request_failure_kind(&value);
        Self::from_request_kind(k)
    }

    /// The error for a document that is no JSON.
    pub fn from_json(value: json::Error) -> (res: QueryError)
        ensures
            res == QueryError::JsonParseError,
    {
        QueryError::JsonParseError
    }
}

/// What an answer says of an item.
#[derive(Debug, PartialEq, Eq, Clone)]
pub enum QueryResponse {
    Movie { title: String, year: String, imdb: String },
    Show { title: String, start_year: String, tmdb: String },
    Episode { show_title: String, id: String },
    /// No answer.
    Empty,
}

/// Whether a movie's search is set by hand in the fixes file.
#[derive(Debug, PartialEq, Eq, Clone)]
pub enum OverrideStatus {
    NotHardcoded,
    Overriden(String),
}

/// Why the fixes file could not be used.
#[derive(Debug, PartialEq, Eq, Clone)]
pub enum FileIoError {
    /// It could not be read; the message of the failure.
    FailedToRead(String),
    FailedToParse,
}

/// Whether the fixes file gives `movie` a search by hand.
pub open spec fn is_hardcoded(fixes: Option<Seq<char>>, movie: Seq<char>) -> bool {
    fixes matches Some(f) && json_member(f, movie) matches Some(m) && !m.0
}

/// Looks `movie` up in the contents of the fixes file.
pub fn check_override(fixes: &str, movie: &String) -> (res: Result<OverrideStatus, FileIoError>)
    ensures
        json_member(fixes@, movie@) is None ==> res == Err::<OverrideStatus, FileIoError>(
            FileIoError::FailedToParse,
        ),
        json_member(fixes@, movie@) is Some && json_member(fixes@, movie@).unwrap().0 ==> res
            == Ok::<OverrideStatus, FileIoError>(OverrideStatus::NotHardcoded),
        json_member(fixes@, movie@) is Some && !json_member(fixes@, movie@).unwrap().0 ==> (res
            matches Ok(OverrideStatus::Overriden(id)) && id@ == json_member(
            fixes@,
            movie@,
        ).unwrap().2),
{
    match json_member_of(fixes, movie.as_str()) {
        Err(_) => Err(FileIoError::FailedToParse),
        Ok(f) => {
            if f.is_null {
                Ok(OverrideStatus::NotHardcoded)
            } else {
                Ok(OverrideStatus::Overriden(f.text))
            }
        },
    }
}

/// The request for a movie: the OMDB URL for its file stem, or for the fix
/// set for it (`fixes` is the content of the fixes file, when it was read).
/// An error when there is no key.
pub fn movie_query_url(file_name: &String, fixes: Option<&str>, omdb_key: Option<String>) -> (res:
    Result<String, QueryError>)
    ensures
        omdb_key is None ==> res == Err::<String, QueryError>(QueryError::UnsetApiKey),
        omdb_key matches Some(k) ==> (res matches Ok(url) && url@ == if is_hardcoded(
            match fixes {
                Some(f) => Some(f@),
                None => None,
            },
            file_name@,
        ) {
            omdb_movie_url(json_member(fixes.unwrap()@, file_name@).unwrap().2, k@)
        } else {
            omdb_movie_url(file_name@, k@)
        }),
{
    let key = match omdb_key {
        Some(k) => k,
        None => {
            return Err(QueryError::UnsetApiKey);
        },
    };
    let fix = match fixes {
        Some(f) => match check_override(f, file_name) {
            Ok(OverrideStatus::Overriden(id)) => Some(id),
            _ => None,
        },
        None => None,
    };
    Ok(Api::query_for_movie(file_name, fix, &key))
}

/// The request for a show: the TMDB search URL for its directory name and the
/// authorization header. An error when there is no key.
pub fn show_query(dir_name: &String, tmdb_key: Option<String>) -> (res: Result<
    (String, String),
    QueryError,
>)
    ensures
        tmdb_key is None ==> res == Err::<(String, String), QueryError>(QueryError::UnsetApiKey),
        tmdb_key matches Some(k) ==> (res matches Ok((url, auth)) && url@
            == "https://api.themoviedb.org/3/search/tv?query="@ + url_encoded(
            vstd::utf8::encode_utf8(dir_name@),
        ) && auth@ == "Bearer "@ + k@),
{
    let key = match tmdb_key {
        Some(k) => k,
        None => {
            return Err(QueryError::UnsetApiKey);
        },
    };
    Ok((Api::query_for_show(dir_name), Api::authorization(&key)))
}

/// A field of the answer read as text: empty when null.
pub open spec fn text_or_empty(f: (bool, bool, Seq<char>, Option<u64>)) -> Seq<char> {
    if f.0 {
        Seq::empty()
    } else {
        f.2
    }
}

/// The year of a movie's answer is null or starts with a digit.
pub open spec fn movie_answer_year_readable(body: Seq<char>, hardcoded: bool) -> bool {
    movie_answer_field(body, hardcoded, "Year"@) matches Some(y) ==> (y.0 || leading_digits(
        y.2,
    ).len() > 0)
}

/// What OMDB's answer `body` says of a movie (searched by id when
/// `hardcoded`), as `res`: no `Response` or a missing title, id or year is a
/// parse error; a refused search is no result; otherwise the title, IMDB id
/// and the digits that start the year, each empty when null, with a failure
/// when one of them is empty.
pub open spec fn movie_response_holds(
    body: Seq<char>,
    hardcoded: bool,
    res: Result<QueryResponse, QueryError>,
) -> bool {
    let title = movie_answer_field(body, hardcoded, "Title"@);
    let imdb = movie_answer_field(body, hardcoded, "imdbID"@);
    let year = movie_answer_field(body, hardcoded, "Year"@);
    &&& json_member(body, "Response"@) is None ==> res == Err::<QueryResponse, QueryError>(
        QueryError::JsonParseError,
    )
    &&& answer_refused(body) ==> res == Err::<QueryResponse, QueryError>(
        QueryError::NoSearchResultsFromApi,
    )
    &&& json_member(body, "Response"@) is Some && !answer_refused(body) && (title is None
        || imdb is None || year is None) ==> res == Err::<QueryResponse, QueryError>(
        QueryError::JsonParseError,
    )
    &&& json_member(body, "Response"@) is Some && !answer_refused(body) && title is Some
        && imdb is Some && year is Some ==> {
        let t = text_or_empty(title.unwrap());
        let i = text_or_empty(imdb.unwrap());
        let y = year.unwrap();
        let yr = if y.0 {
            Seq::<char>::empty()
        } else {
            leading_digits(y.2)
        };
        if t.len() == 0 || i.len() == 0 || yr.len() == 0 {
            res == Err::<QueryResponse, QueryError>(QueryError::FailedToQueryApi)
        } else {
            res matches Ok(QueryResponse::Movie { title: rt, year: ry, imdb: ri }) && rt@ == t
                && ri@ == i && ry@ == yr
        }
    }
}

/// What OMDB's answer `body` says of a movie (searched by id when
/// `hardcoded`): its title, IMDB id and the digits that start its year, each
/// empty when null; a failure when the search was refused or one is empty.
pub fn movie_response(body: &str, hardcoded: bool) -> (res: Result<QueryResponse, QueryError>)
    requires
        movie_answer_year_readable(body@, hardcoded),
    ensures
        movie_response_holds(body@, hardcoded, res),
{
    proof {
        reveal_strlit("Response");
        reveal_strlit("False");
    }
    let response = match json_member_of(body, "Response") {
        Ok(f) => f,
        Err(_) => {
            return Err(QueryError::JsonParseError);
        },
    };
    if response.is_text && chars_eq_str(&chars_of(response.text.as_str()), "False") {
        return Err(QueryError::NoSearchResultsFromApi);
    }
    let title = match movie_field(body, hardcoded, "Title") {
        Ok(f) => f,
        Err(_) => {
            return Err(QueryError::JsonParseError);
        },
    };
    let imdb = match movie_field(body, hardcoded, "imdbID") {
        Ok(f) => f,
        Err(_) => {
            return Err(QueryError::JsonParseError);
        },
    };
    let year = match movie_field(body, hardcoded, "Year") {
        Ok(f) => f,
        Err(_) => {
            return Err(QueryError::JsonParseError);
        },
    };
    let title = if title.is_null {
        String::new()
    } else {
        title.text
    };
    let imdb = if imdb.is_null {
        String::new()
    } else {
        imdb.text
    };
    let year = if year.is_null {
        String::new()
    } else {
        leading_digits_of(year.text.as_str())
    };
    if title.unicode_len() == 0 || imdb.unicode_len() == 0 || year.unicode_len() == 0 {
        return Err(QueryError::FailedToQueryApi);
    }
    Ok(QueryResponse::Movie { title, year, imdb })
}

/// `movie_response` for a movie whose search is `search_term`, where its
/// year can be read; `None` where the year starts with no digit.
pub fn try_movie_response(body: &str, fixes: Option<&str>, search_term: &String) -> (res: Option<
    Result<QueryResponse, QueryError>,
>)
    ensures
        res is None <==> !movie_answer_year_readable(
            body@,
            is_hardcoded(
                match fixes {
                    Some(f) => Some(f@),
                    None => None,
                },
                search_term@,
            ),
        ),
        res matches Some(r) ==> movie_response_holds(
            body@,
            is_hardcoded(
                match fixes {
                    Some(f) => Some(f@),
                    None => None,
                },
                search_term@,
            ),
            r,
        ),
{
    let hardcoded = match fixes {
        Some(f) => match check_override(f, search_term) {
            Ok(OverrideStatus::Overriden(_)) => true,
            _ => false,
        },
        None => false,
    };
    match movie_field(body, hardcoded, "Year") {
        Ok(y) => {
            if !y.is_null {
                let digits = leading_digits_of(y.text.as_str());
                if digits.unicode_len() == 0 {
                    return None;
                }
            }
        },
        Err(_) => {},
    }
    Some(movie_response(body, hardcoded))
}

/// The answer, pretty-printed with an indent of two, as `JsonValue::pretty`
/// writes it; `None` when it does not parse. A function of the document.
pub uninterp spec fn json_pretty_text(doc: Seq<char>) -> Option<Seq<char>>;

/// `json::parse`, then `JsonValue::pretty(2)`.
#[verifier::external_body]
fn json_pretty(doc: &str) -> (res: Option<String>)
    ensures
        match res {
            Some(p) => json_pretty_text(doc@) == Some(p@),
            None => json_pretty_text(doc@) is None,
        },
{
    match json::parse(doc) {
        Ok(v) => Some(v.pretty(2)),
        Err(_) => None,
    }
}

/// The start year of a show's answer starts with a digit.
pub open spec fn show_answer_year_readable(body: Seq<char>) -> bool {
    json_first_member(body, "results"@, "first_air_date"@) matches Some(y) ==> leading_digits(
        y.2,
    ).len() > 0
}

/// What TMDB's answer `body` says of a show, as `res`: no `total_results`,
/// or a first result without name, id or first air date, is a parse error; no
/// results is no result; otherwise the name, id and the digits that start the
/// date, with a failure carrying the pretty-printed answer when one of them is
/// empty (a parse error when the answer does not print).
pub open spec fn show_response_holds(body: Seq<char>, res: Result<QueryResponse, QueryError>) -> bool {
    let name = json_first_member(body, "results"@, "name"@);
    let id = json_first_member(body, "results"@, "id"@);
    let date = json_first_member(body, "results"@, "first_air_date"@);
    &&& json_member(body, "total_results"@) is None ==> res == Err::<QueryResponse, QueryError>(
        QueryError::JsonParseError,
    )
    &&& crate::importer::answer_empty(body) ==> res == Err::<QueryResponse, QueryError>(
        QueryError::NoSearchResultsFromApi,
    )
    &&& json_member(body, "total_results"@) is Some && !crate::importer::answer_empty(body) && (
    name is None || id is None || date is None) ==> res == Err::<QueryResponse, QueryError>(
        QueryError::JsonParseError,
    )
    &&& json_member(body, "total_results"@) is Some && !crate::importer::answer_empty(body)
        && name is Some && id is Some && date is Some ==> {
        let t = name.unwrap().2;
        let i = id.unwrap().2;
        let y = leading_digits(date.unwrap().2);
        if t.len() == 0 || i.len() == 0 || y.len() == 0 {
            match json_pretty_text(body) {
                Some(p) => res matches Err(QueryError::FailedToExtractApiData(rp)) && rp@ == p,
                None => res == Err::<QueryResponse, QueryError>(QueryError::JsonParseError),
            }
        } else {
            res matches Ok(QueryResponse::Show { title, start_year, tmdb }) && title@ == t
                && tmdb@ == i && start_year@ == y
        }
    }
}

/// What TMDB's answer `body` says of a show: the name, id and the digits that
/// start the first air date of its first result; a failure when there are no
/// results or one of them is empty.
pub fn show_response(body: &str) -> (res: Result<QueryResponse, QueryError>)
    requires
        show_answer_year_readable(body@),
    ensures
        show_response_holds(body@, res),
{
    proof {
        reveal_strlit("total_results");
        reveal_strlit("results");
    }
    let total = match json_member_of(body, "total_results") {
        Ok(f) => f,
        Err(_) => {
            return Err(QueryError::JsonParseError);
        },
    };
    let count: u64 = match total.number {
        Some(n) => n,
        None => 0,
    };
    if count == 0 {
        return Err(QueryError::NoSearchResultsFromApi);
    }
    let name = match json_first_member_of(body, "results", "name") {
        Ok(f) => f,
        Err(_) => {
            return Err(QueryError::JsonParseError);
        },
    };
    let id = match json_first_member_of(body, "results", "id") {
        Ok(f) => f,
        Err(_) => {
            return Err(QueryError::JsonParseError);
        },
    };
    let date = match json_first_member_of(body, "results", "first_air_date") {
        Ok(f) => f,
        Err(_) => {
            return Err(QueryError::JsonParseError);
        },
    };
    let start_year = leading_digits_of(date.text.as_str());
    if name.text.unicode_len() == 0 || id.text.unicode_len() == 0 || start_year.unicode_len() == 0 {
        let pretty = match json_pretty(body) {
            Some(p) => p,
            None => {
                return Err(QueryError::JsonParseError);
            },
        };
        return Err(QueryError::FailedToExtractApiData(pretty));
    }
    Ok(QueryResponse::Show { title: name.text, start_year, tmdb: id.text })
}

/// `show_response` where the answer's first air date can be read; `None`
/// where it starts with no digit.
pub fn try_show_response(body: &str) -> (res: Option<Result<QueryResponse, QueryError>>)
    ensures
        res is None <==> !show_answer_year_readable(body@),
        res matches Some(r) ==> show_response_holds(body@, r),
{
    match json_first_member_of(body, "results", "first_air_date") {
        Ok(y) => {
            let digits = leading_digits_of(y.text.as_str());
            if digits.unicode_len() == 0 {
                return None;
            }
        },
        Err(_) => {},
    }
    Some(show_response(body))
}

/// What an episode's file says of it: the id `S<digits>E<digits>` of the
/// leftmost identifier of its path, as written; a failure when there is none.
pub fn episode_response(path: &String) -> (res: Result<QueryResponse, QueryError>)
    ensures
        match episode_ident_spec(path@) {
            None => res == Err::<QueryResponse, QueryError>(QueryError::FailedToQueryApi),
            Some((s, e)) => res matches Ok(QueryResponse::Episode { show_title, id })
                && show_title@.len() == 0 && id@ == seq!['S'] + s + seq!['E'] + e,
        },
{
    let chars = chars_of(path.as_str());
    match episode_ident(&chars) {
        None => Err(QueryError::FailedToQueryApi),
        Some((season, episode)) => {
            let mut id: Vec<char> = Vec::new();
            id.push('S');
            extend_chars(&mut id, &season);
            id.push('E');
            extend_chars(&mut id, &episode);
            assert(id@ =~= seq!['S'] + season@ + seq!['E'] + episode@);
            Ok(QueryResponse::Episode { show_title: String::new(), id: string_from_chars(&id) })
        },
    }
}

} // verus!
