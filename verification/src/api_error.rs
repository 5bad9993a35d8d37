//! Errors that can occur in the act of querying an API.
use vstd::prelude::*;

verus! {

/// Errors that can occur in the act of querying an API.
#[derive(Debug)]
pub enum QueryError {
    /// For tree nodes that are neither movie, show nor episode.
    CantQueryOnType,
    /// The API key is empty when a query is attempted; the secrets were likely
    /// reverted to their defaults.
    UnsetApiKey,
    /// The API answered `null` to the key.
    InvalidApiKey,
    /// Generic failure when querying an API.
    FailedToQueryApi,
    /// The API found nothing.
    NoSearchResultsFromApi,
    /// The HTTP request failed.
    ReqwestError(reqwest::Error),
    /// The answer was not the JSON expected.
    SerdeDeserializeError(serde_json::Error),
    /// The IMDB id of the media could not be fetched.
    TMDBIncompleteResponse,
    /// A value of the answer could not be converted (likely a year that is no number).
    TMDBFailedToConvertFromResponse,
    /// HTTP 429: too many requests.
    TMDBTooManyRequests,
}

/// The HTTP status that marks a refusal for too many requests.
pub const TOO_MANY_REQUESTS: u16 = 429;

/// The variant of a query error, as a number (its position in the declaration).
pub open spec fn query_error_kind(e: QueryError) -> int {
    match e {
        QueryError::CantQueryOnType => 0,
        QueryError::UnsetApiKey => 1,
        QueryError::InvalidApiKey => 2,
        QueryError::FailedToQueryApi => 3,
        QueryError::NoSearchResultsFromApi => 4,
        QueryError::ReqwestError(_) => 5,
        QueryError::SerdeDeserializeError(_) => 6,
        QueryError::TMDBIncompleteResponse => 7,
        QueryError::TMDBFailedToConvertFromResponse => 8,
        QueryError::TMDBTooManyRequests => 9,
    }
}

/// `reqwest::Error::status`: the HTTP status of the response that caused the
/// error, as a number. Nothing is stated of it: it comes from the server.
#[verifier::external_body]
fn reqwest_error_status(e: &reqwest::Error) -> (res: Option<u16>) {
    match e.status() {
        Some(code) => Some(code.as_u16()),
        None => None,
    }
}

impl QueryError {
    /// The error for a failed request, given the HTTP status it carried:
    /// too many requests when that status is 429, else the request error itself.
    pub fn from_reqwest_status(value: reqwest::Error, status: Option<u16>) -> (res: QueryError)
        ensures
            status == Some(TOO_MANY_REQUESTS) ==> res is TMDBTooManyRequests,
            status != Some(TOO_MANY_REQUESTS) ==> res == QueryError::ReqwestError(value),
    {
        match status {
            Some(code) => {
                if code == TOO_MANY_REQUESTS {
                    return QueryError::TMDBTooManyRequests;
                }
            },
            None => {},
        }
        QueryError::ReqwestError(value)
    }

    /// The error for a failed request: too many requests when the response said
    /// so, else the request error itself.
    pub fn from_reqwest(value: reqwest::Error) -> (res: QueryError)
        ensures
            res is TMDBTooManyRequests || res == QueryError::ReqwestError(value),
    {
        let status = reqwest_error_status(&value);
        Self::from_reqwest_status(value, status)
    }

    /// The error for an answer that was not the JSON expected.
    pub fn from_serde(value: serde_json::Error) -> (res: QueryError)
        ensures
            res == QueryError::SerdeDeserializeError(value),
    {
        QueryError::SerdeDeserializeError(value)
    }

    fn kind(&self) -> (res: u8)
        ensures
            res == query_error_kind(*self),
    {
        match self {
            QueryError::CantQueryOnType => 0,
            QueryError::UnsetApiKey => 1,
            QueryError::InvalidApiKey => 2,
            QueryError::FailedToQueryApi => 3,
            QueryError::NoSearchResultsFromApi => 4,
            QueryError::ReqwestError(_) => 5,
            QueryError::SerdeDeserializeError(_) => 6,
            QueryError::TMDBIncompleteResponse => 7,
            QueryError::TMDBFailedToConvertFromResponse => 8,
            QueryError::TMDBTooManyRequests => 9,
        }
    }
}

/// `Debug` of `reqwest::Error`, as `{:?}` writes it. Nothing is stated of the
/// text: it shows the request's details, which the type does not expose.
#[verifier::external_body]
fn reqwest_error_debug(e: &reqwest::Error) -> (res: String) {
    format!("{:?}", e)
}

/// `Debug` of `serde_json::Error`, as `{:?}` writes it. Nothing is stated of
/// the text: it shows the parser's position, which the type does not expose.
#[verifier::external_body]
fn serde_error_debug(e: &serde_json::Error) -> (res: String) {
    format!("{:?}", e)
}

/// How `{:?}` writes a query error that carries nothing: its variant's name.
pub open spec fn query_error_name(e: QueryError) -> Seq<char> {
    match e {
        QueryError::CantQueryOnType => "CantQueryOnType"@,
        QueryError::UnsetApiKey => "UnsetApiKey"@,
        QueryError::InvalidApiKey => "InvalidApiKey"@,
        QueryError::FailedToQueryApi => "FailedToQueryApi"@,
        QueryError::NoSearchResultsFromApi => "NoSearchResultsFromApi"@,
        QueryError::ReqwestError(_) => "ReqwestError"@,
        QueryError::SerdeDeserializeError(_) => "SerdeDeserializeError"@,
        QueryError::TMDBIncompleteResponse => "TMDBIncompleteResponse"@,
        QueryError::TMDBFailedToConvertFromResponse => "TMDBFailedToConvertFromResponse"@,
        QueryError::TMDBTooManyRequests => "TMDBTooManyRequests"@,
    }
}

/// Whether the error carries an error of another crate.
pub open spec fn wraps_outside_error(e: QueryError) -> bool {
    e is ReqwestError || e is SerdeDeserializeError
}

/// `text` is how `{:?}` writes `e`: its variant's name, and for an error that
/// carries another crate's error, that error's text in parentheses after it.
pub open spec fn error_debug_frame(e: QueryError, text: Seq<char>) -> bool {
    if wraps_outside_error(e) {
        exists|inner: Seq<char>| text == query_error_name(e) + "("@ + inner + ")"@
    } else {
        text == query_error_name(e)
    }
}

impl QueryError {
    /// The error as `{:?}` writes it: the variant's name, followed by the
    /// carried error in parentheses for the variants that carry one.
    pub fn debug_text(&self) -> (res: String)
        ensures
            !wraps_outside_error(*self) ==> res@ == query_error_name(*self),
            wraps_outside_error(*self) ==> res@.take(query_error_name(*self).len() as int + 1)
                == query_error_name(*self) + "("@ && res@.last() == ')',
            error_debug_frame(*self, res@),
    {
        proof {
            reveal_strlit("CantQueryOnType");
            reveal_strlit("UnsetApiKey");
            reveal_strlit("InvalidApiKey");
            reveal_strlit("FailedToQueryApi");
            reveal_strlit("NoSearchResultsFromApi");
            reveal_strlit("ReqwestError(");
            reveal_strlit("ReqwestError");
            reveal_strlit("SerdeDeserializeError(");
            reveal_strlit("SerdeDeserializeError");
            reveal_strlit("TMDBIncompleteResponse");
            reveal_strlit("TMDBFailedToConvertFromResponse");
            reveal_strlit("TMDBTooManyRequests");
            reveal_strlit("(");
            reveal_strlit(")");
        }
        match self {
            QueryError::CantQueryOnType => String::from_str("CantQueryOnType"),
            QueryError::UnsetApiKey => String::from_str("UnsetApiKey"),
            QueryError::InvalidApiKey => String::from_str("InvalidApiKey"),
            QueryError::FailedToQueryApi => String::from_str("FailedToQueryApi"),
            QueryError::NoSearchResultsFromApi => String::from_str("NoSearchResultsFromApi"),
            QueryError::ReqwestError(e) => {
                let inner = reqwest_error_debug(e);
                let res = wrapped_text("ReqwestError(", inner.as_str());
                assert(res@ == query_error_name(*self) + "("@ + inner@ + ")"@);
                res
            },
            QueryError::SerdeDeserializeError(e) => {
                let inner = serde_error_debug(e);
                let res = wrapped_text("SerdeDeserializeError(", inner.as_str());
                assert(res@ == query_error_name(*self) + "("@ + inner@ + ")"@);
                res
            },
            QueryError::TMDBIncompleteResponse => String::from_str("TMDBIncompleteResponse"),
            QueryError::TMDBFailedToConvertFromResponse => String::from_str(
                "TMDBFailedToConvertFromResponse",
            ),
            QueryError::TMDBTooManyRequests => String::from_str("TMDBTooManyRequests"),
        }
    }
}

fn wrapped_text(open: &str, inner: &str) -> (res: String)
    ensures
        res@ == open@ + inner@ + ")"@,
{
    let mut out: Vec<char> = Vec::new();
    crate::text::extend_str(&mut out, open);
    crate::text::extend_str(&mut out, inner);
    out.push(')');
    proof {
        reveal_strlit(")");
    }
    crate::text::string_from_chars(&out)
}

/// Two query errors are equal when they are the same variant, whatever they carry.
impl PartialEq for QueryError {
    fn eq(&self, other: &Self) -> (res: bool) {
        self.kind() == other.kind()
    }
}

impl vstd::std_specs::cmp::PartialEqSpecImpl for QueryError {
    open spec fn obeys_eq_spec() -> bool {
        true
    }

    open spec fn eq_spec(&self, other: &Self) -> bool {
        query_error_kind(*self) == query_error_kind(*other)
    }
}

} // verus!
