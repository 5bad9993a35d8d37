//! The outcome of a query to a metadata API, as the catalog keeps it.
use vstd::prelude::*;

use crate::api_error::QueryError;
use crate::text::extend_str;
use crate::text::string_from_chars;

verus! {

/// The status of an outgoing query to an API.
#[derive(Debug)]
pub enum QueryStatus {
    NotStarted,
    InProgress,
    Failed(QueryError),
    Success(QueryResponse),
}

/// The id a media item has at one API.
#[derive(Hash, Debug)]
pub enum ApiSpecificMediaId {
    /// form: `tmdbid-[0-9]+`
    TMDB(String),
    /// IMDB ids, as OMDB uses them; form: `imdbid-tt[0-9]+`
    OMDB(String),
}

/// What the library keeps of an API's answer.
#[derive(Debug, Hash)]
pub struct QueryResponse {
    pub title: String,
    pub year: u32,
    pub imdb: Option<String>,
    /// The id of the item at the API that answered.
    pub tmdb: ApiSpecificMediaId,
}

/// The label of a status: the title found, or the state of the query before
/// the fallback label.
pub open spec fn status_label(status: QueryStatus, fallback: Seq<char>) -> Seq<char> {
    match status {
        QueryStatus::Success(query) => query.title@,
        QueryStatus::Failed(_) => "[Failed] "@ + fallback,
        QueryStatus::NotStarted => "[NotStarted] "@ + fallback,
        QueryStatus::InProgress => "[InProgress] "@ + fallback,
    }
}

impl QueryStatus {
    pub fn to_string(&self, fallback: String) -> (res: String)
        ensures
            res@ == status_label(*self, fallback@),
    {
        match self {
            QueryStatus::Success(query) => query.title.clone(),
            QueryStatus::Failed(_) => prefixed("[Failed] ", &fallback),
            QueryStatus::NotStarted => prefixed("[NotStarted] ", &fallback),
            QueryStatus::InProgress => prefixed("[InProgress] ", &fallback),
        }
    }
}

fn prefixed(prefix: &str, s: &String) -> (res: String)
    ensures
        res@ == prefix@ + s@,
{
    let mut out: Vec<char> = Vec::new();
    extend_str(&mut out, prefix);
    extend_str(&mut out, s.as_str());
    string_from_chars(&out)
}

} // verus!
