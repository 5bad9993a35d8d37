use jfi::api_client::QueryStatus;
use jfi::api_manifest::{ApiCall, ApiManifest};
use std::sync::Arc;

use jfi::catalog::{Catalog, CatalogFailure};
use jfi::catalog_builder::{CatalogBuildError, CatalogBuilder, EntryFilter, ParseAs, WalkedEntry};
use jfi::config::Config;
use jfi::media_item::{MediaCreateError, MediaItem};
use jfi::pattern::Pattern;

fn config(video: &str) -> Arc<Config> {
    Arc::new(Config {
        CacheDir: None,
        VideoFileExtensions: video.to_string(),
        IngestMovieDir: "/in/movies".to_string(),
        IngestShowDir: "/in/shows".to_string(),
        JfMovieDir: "/jf/movies".to_string(),
        JfShowDir: "/jf/shows".to_string(),
    })
}

fn names(items: &[MediaItem]) -> Vec<String> {
    items
        .iter()
        .map(|i| match i {
            MediaItem::Movie(m) => format!("movie:{}", m.search_term),
            MediaItem::Show(s) => format!("show:{}", s.search_term),
            MediaItem::Episode(e) => format!("episode:{}", e.src),
        })
        .collect()
}

#[test]
fn patterns_compile_and_match() {
    let p = Pattern::new("(mkv|mp4)$".to_string()).unwrap();
    assert_eq!(p.source(), "(mkv|mp4)$");
    assert!(p.is_match("film.mkv"));
    assert!(!p.is_match("film.mkv.part"));
    assert!(!p.is_match("(mkv|mp4)$"));
    assert!(Pattern::new("(".to_string()).is_err());
}

#[test]
fn a_bad_video_pattern_fails_the_build() {
    let b = CatalogBuilder::new(config("(webm|mkv"));
    assert!(matches!(b.filters(), Err(CatalogBuildError::RegexError(_))));
}

#[test]
fn filters_of_the_walks() {
    let b = CatalogBuilder::new(config("(webm|mp4|mov|mkv|m4v|avi)"));
    let f = b.filters().unwrap();
    assert!(f.keeps(&EntryFilter::Video, "Heat (1995).mkv"));
    assert!(!f.keeps(&EntryFilter::Video, "notes.txt"));
    assert!(f.keeps(&EntryFilter::UnignoredVideo, "Heat (1995).mkv"));
    assert!(!f.keeps(&EntryFilter::UnignoredVideo, "Heat (1995) temp.mkv"));
    assert!(!f.keeps(&EntryFilter::UnignoredVideo, "notes.txt"));
    assert!(f.keeps(&EntryFilter::Unignored, "The Wire"));
    assert!(!f.keeps(&EntryFilter::Unignored, "The Wire (ignore)"));
    assert!(!f.keeps(&EntryFilter::Unignored, "temp-download"));
    assert!(f.keeps(&EntryFilter::Nothing, "temp ignore"));
}

#[test]
fn the_walks_of_a_build() {
    let b = CatalogBuilder::new(config("x"));
    let plans = b.walk_plans();
    assert_eq!(plans.len(), 4);
    assert_eq!(plans[0].root, "/in/movies");
    assert_eq!((plans[0].min_depth, plans[0].max_depth), (1, 1));
    assert_eq!(plans[0].filter, EntryFilter::UnignoredVideo);
    assert_eq!(plans[0].parse, ParseAs::Movie);
    assert_eq!(plans[1].root, "/in/shows");
    assert_eq!(plans[1].filter, EntryFilter::Unignored);
    assert_eq!(plans[1].parse, ParseAs::Show);
    assert_eq!(plans[2].root, "/jf/movies");
    assert_eq!((plans[2].min_depth, plans[2].max_depth), (2, 2));
    assert_eq!(plans[2].filter, EntryFilter::Video);
    assert_eq!(plans[3].root, "/jf/shows");
    assert_eq!(plans[3].filter, EntryFilter::Nothing);
    assert_eq!(plans[3].parse, ParseAs::Show);
}

#[test]
fn status_messages() {
    assert_eq!(ParseAs::Movie.label(), "[Movie]  ");
    assert_eq!(CatalogBuilder::found_message(&ParseAs::Movie, "Heat.mkv"), "[Movie]   Found: Heat.mkv");
    assert_eq!(CatalogBuilder::found_message(&ParseAs::Show, "The Wire"), "[Show]    Found: The Wire");
    let f = CatalogFailure { err: MediaCreateError::IncorrectFileTypeSupplied, buf: "/x/..".to_string() };
    assert_eq!(
        CatalogBuilder::failure_message(&ParseAs::Show, &f),
        "[Show]        Error during creation: IncorrectFileTypeSupplied"
    );
    assert!(ParseAs::Movie.accepts(true, false));
    assert!(!ParseAs::Movie.accepts(false, true));
    assert!(ParseAs::Show.accepts(false, true));
}

#[test]
fn building_a_catalog() {
    let mut b = CatalogBuilder::new(config("mkv"));
    b.create_item("/in/movies/Zodiac (2007).mkv".to_string(), &ParseAs::Movie).unwrap();
    b.create_item("/in/movies/Alien [1979].mkv".to_string(), &ParseAs::Movie).unwrap();
    b.create_item("/in/shows/The Wire".to_string(), &ParseAs::Show).unwrap();
    let failure = b.create_item("/in/shows/..".to_string(), &ParseAs::Show).unwrap_err();
    assert_eq!(failure.err, MediaCreateError::IncorrectFileTypeSupplied);
    assert_eq!(failure.buf, "/in/shows/..");
    b.record_failure(failure);
    let cat: Catalog = b.finish();
    assert_eq!(cat.failures.len(), 1);
    assert_eq!(cat.iter_movies().len(), 2);
    assert_eq!(cat.iter_shows().len(), 1);
    assert_eq!(names(&cat.iter_all()), vec!["movie:Zodiac", "movie:Alien", "show:The Wire"]);
    let uids: Vec<u64> = cat.movies.iter().map(|m| m.uid).chain(cat.shows.iter().map(|s| s.uid)).collect();
    assert_eq!(uids, vec![0, 1, 2]);
}

#[test]
fn two_items_of_one_file_are_two_items() {
    let mut b = CatalogBuilder::new(config("mkv"));
    b.create_item("/in/movies/Zodiac (2007).mkv".to_string(), &ParseAs::Movie).unwrap();
    b.create_item("/in/movies/Zodiac (2007).mkv".to_string(), &ParseAs::Movie).unwrap();
    let cat = b.finish();
    let first = MediaItem::Movie(cat.movies[0].clone());
    let second = MediaItem::Movie(cat.movies[1].clone());
    let mut manifest = ApiManifest::new();
    manifest.update_api_call(ApiCall { item: first.clone(), status: QueryStatus::InProgress });
    assert!(manifest.get(&first).is_some());
    assert!(manifest.get(&second).is_none());
}

#[test]
fn sorting_a_catalog_by_titles() {
    let mut b = CatalogBuilder::new(config("mkv"));
    for p in ["/m/Zodiac.mkv", "/m/Alien.mkv", "/m/Brazil.mkv", "/m/alien.mkv"] {
        b.create_item(p.to_string(), &ParseAs::Movie).unwrap();
    }
    for p in ["/s/Wire", "/s/Atlanta"] {
        b.create_item(p.to_string(), &ParseAs::Show).unwrap();
    }
    let cat = b.finish();
    let sorted = cat.iter_all_sorted(&vec![None, None, None, None], &vec![None, None]);
    assert_eq!(
        names(&sorted),
        vec!["movie:Alien", "movie:Brazil", "movie:Zodiac", "movie:alien", "show:Atlanta", "show:Wire"]
    );
    // An answered query's title stands in for the search term.
    let sorted = cat.iter_all_sorted(
        &vec![Some("Aardvark".to_string()), None, None, Some("Brazil".to_string())],
        &vec![None, Some("ZZ".to_string())],
    );
    assert_eq!(
        names(&sorted),
        vec!["movie:Zodiac", "movie:Alien", "movie:Brazil", "movie:alien", "show:Wire", "show:Atlanta"]
    );
}

fn walked(path: Option<&str>, shown: &str, is_file: bool) -> WalkedEntry {
    WalkedEntry {
        path: path.map(|p| p.to_string()),
        shown_path: shown.to_string(),
        name: shown.rsplit('/').next().unwrap().to_string(),
        is_file,
        is_dir: !is_file,
    }
}

#[test]
fn pushing_walked_entries() {
    let mut b = CatalogBuilder::new(config("mkv"));
    let m = b.push_entry(&ParseAs::Movie, &walked(Some("/in/movies/Heat (1995).mkv"), "/in/movies/Heat (1995).mkv", true));
    assert_eq!(m, vec!["[Movie]   Found: Heat (1995).mkv"]);
    assert_eq!(b.movies.len(), 1);
    assert_eq!(b.movies[0].uid, 0);
    let m = b.push_entry(&ParseAs::Movie, &walked(Some("/in/movies/dir"), "/in/movies/dir", false));
    assert!(m.is_empty());
    let m = b.push_entry(&ParseAs::Show, &walked(None, "/in/shows/bad\u{fffd}", false));
    assert_eq!(m.len(), 2);
    assert_eq!(b.fails.len(), 1);
    assert_eq!(b.fails[0].err, MediaCreateError::PathNotUnicode);
    let m = b.push_entry(&ParseAs::Show, &walked(Some("/in/shows/.."), "/in/shows/..", false));
    assert_eq!(m.len(), 2);
    assert_eq!(b.fails[1].err, MediaCreateError::IncorrectFileTypeSupplied);
    let m = b.push_entry(&ParseAs::Show, &walked(Some("/in/shows/Lost"), "/in/shows/Lost", false));
    assert_eq!(m, vec!["[Show]    Found: Lost"]);
    assert_eq!(b.shows[0].uid, 1);
    assert_eq!(b.next_uid, 2);
}

#[test]
fn library_movie_walk_passes_through_movie_folders() {
    let b = CatalogBuilder::new(config("mkv$"));
    let filters = b.filters().unwrap();
    let plans = b.walk_plans();
    assert!(plans[2].keeps_entry(&filters, 1, "Heat (1995) [imdbid-tt0113277]"));
    assert!(plans[2].keeps_entry(&filters, 2, "Heat (1995) [imdbid-tt0113277].mkv"));
    assert!(!plans[2].keeps_entry(&filters, 2, "poster.jpg"));
    assert!(!plans[0].keeps_entry(&filters, 1, "poster.jpg"));
    assert!(!plans[1].keeps_entry(&filters, 1, "Show temp"));
}
