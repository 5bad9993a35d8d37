use jfi::api_client::{ApiSpecificMediaId, QueryResponse, QueryStatus};
use jfi::api_error::{QueryError, TOO_MANY_REQUESTS};
use jfi::api_query::{
    check_override, episode_response, movie_query_url, movie_response, show_query, show_response,
    try_movie_response, try_show_response, FileIoError, OverrideStatus, QueryError as OldQueryError,
    QueryResponse as OldResponse, RequestFailureKind,
};
use jfi::tmdb::{
    check_key, external_ids_url, finish_search, first_result, movie_search_url, show_search_url,
    SearchKind, TMDBExternalIdsResponse, TMDBSearchResponse,
};

fn request_error() -> reqwest::Error {
    reqwest::Client::new().get("not a url").build().unwrap_err()
}

fn search(imdb: &str, date: &str) -> TMDBSearchResponse {
    TMDBSearchResponse {
        id: 603,
        title: "The Matrix".to_string(),
        release_date: date.to_string(),
        imdb_id: imdb.to_string(),
        ..Default::default()
    }
}

#[test]
fn status_labels() {
    assert_eq!(QueryStatus::NotStarted.to_string("x".to_string()), "[NotStarted] x");
    assert_eq!(QueryStatus::InProgress.to_string("x".to_string()), "[InProgress] x");
    assert_eq!(QueryStatus::Failed(QueryError::UnsetApiKey).to_string("x".to_string()), "[Failed] x");
    let r = QueryResponse { title: "T".to_string(), year: 1, imdb: None, tmdb: ApiSpecificMediaId::OMDB("o".to_string()) };
    assert_eq!(QueryStatus::Success(r).to_string("x".to_string()), "T");
}

#[test]
fn request_errors() {
    assert!(matches!(QueryError::from_reqwest_status(request_error(), Some(TOO_MANY_REQUESTS)), QueryError::TMDBTooManyRequests));
    assert!(matches!(QueryError::from_reqwest_status(request_error(), Some(404)), QueryError::ReqwestError(_)));
    assert!(matches!(QueryError::from_reqwest_status(request_error(), None), QueryError::ReqwestError(_)));
    assert!(matches!(QueryError::from_reqwest(request_error()), QueryError::ReqwestError(_)));
    let e = serde_json::from_str::<u32>("?").unwrap_err();
    assert!(matches!(QueryError::from_serde(e), QueryError::SerdeDeserializeError(_)));
}

#[test]
fn errors_compare_by_variant() {
    assert!(QueryError::ReqwestError(request_error()) == QueryError::ReqwestError(request_error()));
    assert!(QueryError::UnsetApiKey != QueryError::InvalidApiKey);
}

#[test]
fn error_texts() {
    assert_eq!(QueryError::CantQueryOnType.debug_text(), "CantQueryOnType");
    assert_eq!(QueryError::TMDBTooManyRequests.debug_text(), "TMDBTooManyRequests");
    let t = QueryError::ReqwestError(request_error()).debug_text();
    assert!(t.starts_with("ReqwestError(") && t.ends_with(')'));
}

#[test]
fn search_urls() {
    assert_eq!(
        movie_search_url("Blade Runner", "key"),
        "https://api.themoviedb.org/3/search/movie?query=Blade%20Runner&api_key=key"
    );
    assert_eq!(show_search_url("a/b", "k"), "https://api.themoviedb.org/3/search/tv?query=a%2Fb&api_key=k");
    assert_eq!(
        external_ids_url(SearchKind::Movie, 603, "k"),
        "https://api.themoviedb.org/3/movie/603/external_ids?api_key=k"
    );
    assert_eq!(external_ids_url(SearchKind::Show, 0, "k"), "https://api.themoviedb.org/3/tv/0/external_ids?api_key=k");
}

#[test]
fn search_steps() {
    assert!(matches!(check_key(""), Some(QueryStatus::Failed(QueryError::UnsetApiKey))));
    assert!(check_key("k").is_none());
    assert!(matches!(first_result(true, Ok(search("", ""))), Err(QueryStatus::Failed(QueryError::NoSearchResultsFromApi))));
    let e = serde_json::from_str::<u32>("?").unwrap_err();
    assert!(matches!(first_result(false, Err(e)), Err(QueryStatus::Failed(QueryError::SerdeDeserializeError(_)))));
    assert_eq!(first_result(false, Ok(search("", "1999"))).unwrap().id, 603);
}

#[test]
fn search_results_become_responses() {
    assert!(matches!(search("", "1999-03-31").try_into(), Err(QueryError::TMDBIncompleteResponse)));
    assert!(matches!(search("tt1", "n/a").try_into(), Err(QueryError::TMDBFailedToConvertFromResponse)));
    let r = search("tt0133093", "1999-03-31").try_into().unwrap();
    assert_eq!(r.title, "The Matrix");
    assert_eq!(r.year, 1999);
    assert_eq!(r.imdb, None);
    assert!(matches!(r.tmdb, ApiSpecificMediaId::TMDB(ref t) if t == "603"));
    let ids = TMDBExternalIdsResponse { id: 603, imdb_id: Some("tt0133093".to_string()), ..Default::default() };
    match finish_search(search("", "1999"), Some(ids)) {
        QueryStatus::Success(q) => {
            assert_eq!((q.title.as_str(), q.year), ("The Matrix", 1999));
            assert_eq!(q.imdb, None);
        }
        other => panic!("unexpected {:?}", other),
    }
    let no_imdb = TMDBExternalIdsResponse { id: 603, imdb_id: None, ..Default::default() };
    assert!(matches!(finish_search(search("tt1", "1999"), Some(no_imdb)), QueryStatus::Failed(QueryError::TMDBIncompleteResponse)));
    assert!(matches!(finish_search(search("tt1", "1999"), None), QueryStatus::Success(_)));
}

#[test]
fn fixes_file() {
    let fixes = r#"{"Heat": "tt0113277", "Other": null}"#;
    assert_eq!(check_override(fixes, &"Heat".to_string()), Ok(OverrideStatus::Overriden("tt0113277".to_string())));
    assert_eq!(check_override(fixes, &"Other".to_string()), Ok(OverrideStatus::NotHardcoded));
    assert_eq!(check_override("[", &"Heat".to_string()), Err(FileIoError::FailedToParse));
}

#[test]
fn request_for_a_movie() {
    let fixes = r#"{"Heat": "tt0113277"}"#;
    assert_eq!(movie_query_url(&"Heat".to_string(), Some(fixes), None), Err(OldQueryError::UnsetApiKey));
    assert_eq!(
        movie_query_url(&"Heat".to_string(), Some(fixes), Some("k".to_string())).unwrap(),
        "https://www.omdbapi.com/?apikey=k&type=movie&i=tt0113277"
    );
    assert_eq!(
        movie_query_url(&"Big Fish".to_string(), None, Some("k".to_string())).unwrap(),
        "https://www.omdbapi.com/?apikey=k&type=movie&s=Big%20Fish*"
    );
    let (url, auth) = show_query(&"The Wire".to_string(), Some("t".to_string())).unwrap();
    assert_eq!(url, "https://api.themoviedb.org/3/search/tv?query=The%20Wire");
    assert_eq!(auth, "Bearer t");
    assert_eq!(show_query(&"x".to_string(), None), Err(OldQueryError::UnsetApiKey));
}

#[test]
fn movie_answers() {
    let body = r#"{"Response": "True", "Search": [{"Title": "Heat", "imdbID": "tt0113277", "Year": "1995"}]}"#;
    assert_eq!(
        movie_response(body, false),
        Ok(OldResponse::Movie { title: "Heat".to_string(), year: "1995".to_string(), imdb: "tt0113277".to_string() })
    );
    assert_eq!(movie_response(r#"{"Response": "False"}"#, false), Err(OldQueryError::NoSearchResultsFromApi));
    assert_eq!(movie_response("{", false), Err(OldQueryError::JsonParseError));
    let missing = r#"{"Response": "True", "Title": "Heat", "Year": "1995"}"#;
    assert_eq!(movie_response(missing, true), Err(OldQueryError::FailedToQueryApi));
    assert!(try_movie_response(r#"{"Response": "True", "Search": [{"Year": "??"}]}"#, None, &"x".to_string()).is_none());
    let fixes = r#"{"Heat": "tt0113277"}"#;
    let direct = r#"{"Response": "True", "Title": "Heat", "imdbID": "tt0113277", "Year": "1995"}"#;
    assert_eq!(
        try_movie_response(direct, Some(fixes), &"Heat".to_string()),
        Some(Ok(OldResponse::Movie { title: "Heat".to_string(), year: "1995".to_string(), imdb: "tt0113277".to_string() }))
    );
    assert_eq!(try_movie_response(r#"{"Response": "False"}"#, None, &"x".to_string()), Some(Err(OldQueryError::NoSearchResultsFromApi)));
}

#[test]
fn show_answers() {
    let body = r#"{"total_results": 1, "results": [{"name": "The Wire", "id": 1438, "first_air_date": "2002-06-02"}]}"#;
    assert_eq!(
        show_response(body),
        Ok(OldResponse::Show { title: "The Wire".to_string(), start_year: "2002".to_string(), tmdb: "1438".to_string() })
    );
    assert_eq!(show_response(r#"{"total_results": 0}"#), Err(OldQueryError::NoSearchResultsFromApi));
    assert_eq!(show_response("nope"), Err(OldQueryError::JsonParseError));
    let empty_name = r#"{"total_results": 1, "results": [{"name": "", "id": 1, "first_air_date": "2002"}]}"#;
    match show_response(empty_name) {
        Err(OldQueryError::FailedToExtractApiData(p)) => assert!(p.contains("\"results\"")),
        other => panic!("unexpected {:?}", other),
    }
    assert!(try_show_response(r#"{"total_results": 1, "results": [{"first_air_date": "x"}]}"#).is_none());
    assert_eq!(
        try_show_response(body),
        Some(Ok(OldResponse::Show { title: "The Wire".to_string(), start_year: "2002".to_string(), tmdb: "1438".to_string() }))
    );
    assert_eq!(try_show_response(r#"{"total_results": 0, "results": [{"first_air_date": "2002"}]}"#), Some(Err(OldQueryError::NoSearchResultsFromApi)));
}

#[test]
fn episode_answers() {
    assert_eq!(
        episode_response(&"/s/W/w.s01e002.mkv".to_string()),
        Ok(OldResponse::Episode { show_title: String::new(), id: "S01E002".to_string() })
    );
    assert_eq!(episode_response(&"/s/W/extra.mkv".to_string()), Err(OldQueryError::FailedToQueryApi));
}

#[test]
fn request_failure_kinds() {
    let none = RequestFailureKind {
        builder: false, redirect: false, status: false, timeout: false, request: false,
        connect: false, body: false, decode: false, upgrade: false,
    };
    assert_eq!(OldQueryError::from_request_kind(none), OldQueryError::ReqwestUnknown);
    assert_eq!(OldQueryError::from_request_kind(RequestFailureKind { timeout: true, connect: true, ..none }), OldQueryError::ReqwestTimeout);
    assert_eq!(OldQueryError::from_reqwest(request_error()), OldQueryError::ReqwestBuilder);
    let e = json::parse("{").unwrap_err();
    assert_eq!(OldQueryError::from_json(e), OldQueryError::JsonParseError);
}
