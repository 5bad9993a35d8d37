use jfi::importer::{
    check_hostname, db_t, env_t, Api, BasicError, Episode, ImportError, Movie, MoveableItem, ScanEntry, Show, ShowEpisode,
};

fn entry(path: &str, is_file: bool) -> ScanEntry {
    let name = path.rsplit('/').next().unwrap().to_string();
    ScanEntry { path: path.to_string(), name: Some(name), is_file, is_dir: !is_file }
}

#[test]
fn basic_errors() {
    let e = BasicError::new("boom".to_string());
    assert_eq!(e.message(), "boom");
    assert_eq!(BasicError::boxed("x".to_string()).0, "x");
}

#[test]
fn descriptions() {
    let mut m = Movie::new();
    m.title = "Heat".to_string();
    m.year = "1995".to_string();
    m.imdb = "tt0113277".to_string();
    m.src = "/src/Heat.mkv".to_string();
    assert_eq!(m.describe(), "Heat (1995) [tt0113277] - (/src/Heat.mkv)");
    let mut s = Show::new();
    s.title = "The Wire".to_string();
    s.start_year = "2002".to_string();
    s.tmdb = "1438".to_string();
    s.episodes.push(Episode { id: "S01E01".to_string(), src: "/w/1.mkv".to_string() });
    assert_eq!(s.describe(), "The Wire (2002) [1438]\nS01E01 -> /w/1.mkv\n");
    let e = Episode::new("S01E01".to_string(), "/w/1.mkv".to_string());
    assert!(e.id.is_empty() && e.src.is_empty());
}

#[test]
fn library_paths() {
    let mut m = Movie::new();
    m.title = "Heat".to_string();
    m.year = "1995".to_string();
    m.imdb = "tt0113277".to_string();
    m.src = "/src/movies/heat.mkv".to_string();
    let dst = "/jf".to_string();
    assert_eq!(m.mapped_path(&dst).unwrap(), "/jf/Heat (1995) [tt0113277]/Heat (1995) [tt0113277].mkv");
    assert_eq!(m.src(), "/src/movies/heat.mkv");
    m.src = "/src/movies/noext".to_string();
    assert_eq!(m.movie_path(&dst), "/jf/Heat (1995) [tt0113277]/Heat (1995) [tt0113277].");

    let mut s = Show::new();
    s.title = "The Wire".to_string();
    s.start_year = "2002".to_string();
    s.tmdb = "1438".to_string();
    let e = Episode { id: "S01E02".to_string(), src: "/src/shows/wire/The.Wire.S01E02.mkv".to_string() };
    let item = ShowEpisode { show: &s, episode: &e };
    assert_eq!(
        item.mapped_path(&dst).unwrap(),
        "/jf/The Wire (2002) [tmdbid-1438]/Season 01/The Wire (2002) [tmdbid-1438] S01E02.mkv"
    );
    let bad = Episode { id: "x".to_string(), src: "/src/shows/wire/s01e02.mkv".to_string() };
    assert_eq!(
        bad.path_in(&s, &dst).unwrap_err().0,
        "Failed to find episode identifier `SXXEXX` in file name: /src/shows/wire/s01e02.mkv"
    );
}

#[test]
fn settings_from_env_files() {
    let mut env = env_t::new();
    let unknown = env.load_sources(
        "SRC_DIR=/base/src\nDST_DIR=/base/dst\n# comment\nCACHE_DIR='/cache'\n",
        "SRC_DIR=/local/src\nexport OMDB_APIKEY=abc\nTMDB_READ_ACCESS_TOKEN=\"tok en\"\nEXTRA=1\nJELLYFIN_SHOW_DIR_NAME=shows",
    );
    assert_eq!(env.src_dir, "/local/src");
    assert_eq!(env.dst_dir, "/base/dst");
    assert_eq!(env.cache_dir, "/cache");
    assert_eq!(env.omdb_key, "abc");
    assert_eq!(env.tmdb_key, "tok en");
    assert_eq!(env.show_dir_name, "shows");
    assert_eq!(env.movie_dir_name, "");
    assert_eq!(unknown, vec!["EXTRA".to_string()]);
    assert_eq!(env.movies_path(), "/local/src/movies");
    assert_eq!(env.shows_path(), "/local/src/shows");
    assert_eq!(env.show_library_path(), "/base/dst/shows");
}

#[test]
fn unparsable_env_files_change_nothing() {
    let mut env = env_t::new();
    env.src_dir = "/keep".to_string();
    let unknown = env.load_sources("=broken", "");
    assert_eq!(env.src_dir, "/keep");
    assert!(unknown.is_empty());
}

#[test]
fn later_pairs_override_earlier_ones() {
    let mut env = env_t::new();
    let unknown = env.apply_pairs(vec![
        ("SRC_DIR".to_string(), "a".to_string()),
        ("Z".to_string(), "1".to_string()),
        ("SRC_DIR".to_string(), "b".to_string()),
        ("Y".to_string(), "2".to_string()),
    ]);
    assert_eq!(env.src_dir, "b");
    assert_eq!(unknown, vec!["Z".to_string(), "Y".to_string()]);
}

#[test]
fn scanning_sources() {
    let mut db = db_t::new();
    db.add_movies(&vec![
        entry("/src/movies/Heat.mkv", true),
        entry("/src/movies/readme.txt", true),
        entry("/src/movies/Old.avi", false),
    ]);
    assert_eq!(db.movies.len(), 1);
    assert_eq!(db.movies[0].src, "/src/movies/Heat.mkv");
    assert!(db.movies[0].title.is_empty());
    db.add_shows(&vec![entry("/src/shows/Wire", false), entry("/src/shows/temp", false), entry("/src/shows/x.mkv", true)]);
    assert_eq!(db.shows.len(), 1);
    assert_eq!(db.shows[0].root_dir, "/src/shows/Wire");
    let mut failed = Vec::new();
    let show = &mut db.shows[0];
    show.add_episodes(
        &vec![
            entry("/src/shows/Wire/Season 1", false),
            entry("/src/shows/Wire/Season 1/wire.s1e02.mkv", true),
            entry("/src/shows/Wire/Season 1/extra.mkv", true),
            ScanEntry { path: "/src/shows/Wire/bad".to_string(), name: None, is_file: true, is_dir: false },
        ],
        &mut failed,
    );
    assert_eq!(show.episodes.len(), 1);
    assert_eq!(show.episodes[0].id, "S1E02");
    assert_eq!(show.episodes[0].src, "/src/shows/Wire/Season 1/wire.s1e02.mkv");
    assert_eq!(failed, vec!["/src/shows/Wire/bad".to_string()]);
}

#[test]
fn request_urls() {
    assert_eq!(
        Api::movie_url("The Matrix", "k"),
        "https://www.omdbapi.com/?apikey=k&type=movie&s=The%20Matrix*"
    );
    assert_eq!(Api::movie_url("tt0133093", "k"), "https://www.omdbapi.com/?apikey=k&type=movie&i=tt0133093");
    assert_eq!(
        Api::query_for_movie(&"Matrix".to_string(), Some("tt0133093".to_string()), &"k".to_string()),
        "https://www.omdbapi.com/?apikey=k&type=movie&i=tt0133093"
    );
    assert_eq!(
        Api::query_for_show(&"Amélie & co".to_string()),
        "https://api.themoviedb.org/3/search/tv?query=Am%C3%A9lie%20%26%20co"
    );
    assert_eq!(Api::authorization(&"tok".to_string()), "Bearer tok");
}

#[test]
fn manual_fixes() {
    let fixes = r#"{"Heat": "tt0113277", "Nothing": null}"#;
    assert_eq!(Api::check_override(fixes, &"Heat".to_string()).unwrap(), "tt0113277");
    assert!(matches!(Api::check_override(fixes, &"Nothing".to_string()), Err(ImportError::Basic(b)) if b.0 == "Movie is not hardcoded"));
    assert!(matches!(Api::check_override(fixes, &"Missing".to_string()), Err(ImportError::Basic(_))));
    assert!(matches!(Api::check_override("{", &"Heat".to_string()), Err(ImportError::Json(_))));
}

#[test]
fn describing_a_movie_from_an_answer() {
    let mut m = Movie::new();
    m.src = "/src/movies/Heat (1995).mkv".to_string();
    let body = r#"{"Response": "True", "Search": [{"Title": "Heat", "imdbID": "tt0113277", "Year": "1995–"}]}"#;
    m.update_info(body, false).unwrap();
    assert_eq!((m.title.as_str(), m.imdb.as_str(), m.year.as_str()), ("Heat", "tt0113277", "1995"));
    let direct = r#"{"Response": "True", "Title": "Heat", "imdbID": "tt0113277", "Year": "1995"}"#;
    let mut m2 = Movie::new();
    m2.src = "/src/movies/x.mkv".to_string();
    m2.update_info(direct, true).unwrap();
    assert_eq!(m2.title, "Heat");
    let refused = r#"{"Response": "False", "Error": "Movie not found!"}"#;
    let mut m3 = Movie::new();
    m3.src = "/src/movies/Unknown (2000).mkv".to_string();
    match m3.update_info(refused, false) {
        Err(ImportError::Basic(b)) => assert_eq!(b.0, "API Failure for movie: Unknown (2000)"),
        other => panic!("unexpected {:?}", other),
    }
    assert!(m3.title.is_empty());
    assert!(matches!(m3.update_info("not json", false), Err(ImportError::Json(_))));
    let no_year = r#"{"Response": "True", "Search": [{"Title": "Heat", "imdbID": "tt1", "Year": "N/A"}]}"#;
    assert!(m3.try_update_info(no_year, false).is_none());
    assert!(matches!(m3.try_update_info(body, false), Some(Ok(()))));
    assert_eq!((m3.title.as_str(), m3.imdb.as_str(), m3.year.as_str()), ("Heat", "tt0113277", "1995"));
    let mut nameless = Movie::new();
    assert!(nameless.try_update_info(body, false).is_none());
}

#[test]
fn describing_a_show_from_an_answer() {
    let mut s = Show::new();
    s.root_dir = "/src/shows/The Wire".to_string();
    let body = r#"{"total_results": 2, "results": [{"name": "The Wire", "id": 1438, "first_air_date": "2002-06-02"}]}"#;
    s.update_info(body).unwrap();
    assert_eq!((s.title.as_str(), s.tmdb.as_str(), s.start_year.as_str()), ("The Wire", "1438", "2002"));
    let mut s2 = Show::new();
    s2.root_dir = "/src/shows/Nope".to_string();
    match s2.update_info(r#"{"total_results": 0, "results": []}"#) {
        Err(ImportError::Basic(b)) => assert_eq!(b.0, "Got no result for movie: Nope"),
        other => panic!("unexpected {:?}", other),
    }
    assert!(s2.try_update_info(r#"{"total_results": 1, "results": [{"name": "x", "id": 1, "first_air_date": ""}]}"#).is_none());
    assert!(matches!(s2.try_update_info(body), Some(Ok(()))));
    assert_eq!((s2.title.as_str(), s2.tmdb.as_str(), s2.start_year.as_str()), ("The Wire", "1438", "2002"));
    let mut s3 = Show::new();
    s3.root_dir = "/src/shows/Nope".to_string();
    match s3.try_update_info(r#"{"total_results": 0, "results": [{"first_air_date": "2002"}]}"#) {
        Some(Err(ImportError::Basic(b))) => assert_eq!(b.0, "Got no result for movie: Nope"),
        other => panic!("unexpected {:?}", other),
    }
    assert_eq!(s2.search_query(), "Nope");
}

#[test]
fn files_move_only_on_the_allowed_host() {
    assert!(check_hostname("homelab").is_ok());
    let err = check_hostname("laptop").unwrap_err();
    assert_eq!(err.0, "Invalid host name. This is to prevent running on the wrong device for testing purposes.");
    assert!(check_hostname("homelab\n").is_err());
}
