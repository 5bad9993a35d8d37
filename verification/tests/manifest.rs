use jfi::catalog_view::{CatalogViewState, ViewAction, ViewEvent};
use jfi::ffprobe::FFprobeFailure;
use jfi::prober::ProbeResult;
use jfi::view_state::InfoState;
use std::sync::Arc;

use jfi::api_client::{ApiSpecificMediaId, QueryResponse, QueryStatus};
use jfi::api_manifest::{ApiCall, ApiManifest};
use jfi::catalog::Catalog;
use jfi::config::Config;
use jfi::media_item::{MediaItem, Movie, Show};
use jfi::view_state::{update_media_list, MediaList};

fn config() -> Arc<Config> {
    Arc::new(Config {
        CacheDir: None,
        VideoFileExtensions: "(mkv|mp4)".to_string(),
        IngestMovieDir: "/in/movies".to_string(),
        IngestShowDir: "/in/shows".to_string(),
        JfMovieDir: "/jf/movies".to_string(),
        JfShowDir: "/jf/shows".to_string(),
    })
}

fn movie(path: &str) -> Arc<Movie> {
    Arc::new(Movie::new(Some(path.to_string())).unwrap())
}

fn show(path: &str) -> Arc<Show> {
    Arc::new(Show::new(Some(path.to_string())).unwrap())
}

fn success(title: &str) -> QueryStatus {
    QueryStatus::Success(QueryResponse {
        title: title.to_string(),
        year: 2000,
        imdb: None,
        tmdb: ApiSpecificMediaId::TMDB("1".to_string()),
    })
}

fn title_of(status: Option<&Arc<QueryStatus>>) -> Option<String> {
    match status.map(|s| &**s) {
        Some(QueryStatus::Success(r)) => Some(r.title.clone()),
        _ => None,
    }
}

#[test]
fn manifest_gives_back_the_last_answer_recorded() {
    let zodiac = MediaItem::Movie(movie("/in/movies/Zodiac (2007).mkv"));
    let alien = MediaItem::Movie(movie("/in/movies/Alien (1979).mkv"));
    let mut manifest = ApiManifest::new();
    assert!(!manifest.is_released());
    assert!(manifest.get(&zodiac).is_none());
    manifest.update_api_call(ApiCall { item: zodiac.clone(), status: QueryStatus::InProgress });
    assert!(matches!(manifest.get(&zodiac).map(|s| &**s), Some(QueryStatus::InProgress)));
    manifest.update_api_call(ApiCall { item: zodiac.clone(), status: success("Zodiac") });
    assert_eq!(title_of(manifest.get(&zodiac)), Some("Zodiac".to_string()));
    assert!(manifest.get(&alien).is_none());
    let same_item = MediaItem::Movie(movie("/in/movies/Zodiac (2007).mkv"));
    assert_eq!(title_of(manifest.get(&same_item)), Some("Zodiac".to_string()));
    let other_movie_same_file =
        MediaItem::Movie(Arc::new(Movie::new(Some("/in/movies/Zodiac (2007).mkv".to_string())).unwrap().with_uid(7)));
    assert!(manifest.get(&other_movie_same_file).is_none());
    let as_show = MediaItem::Show(show("/in/movies/Zodiac (2007).mkv"));
    assert!(manifest.get(&as_show).is_none());
}

#[test]
fn send_all_releases_and_marks_every_item() {
    let a = MediaItem::Movie(movie("/in/movies/A (2001).mkv"));
    let b = MediaItem::Show(show("/in/shows/B"));
    let c = MediaItem::Movie(movie("/in/movies/C (2003).mkv"));
    let mut manifest = ApiManifest::new();
    manifest.update_api_call(ApiCall { item: c.clone(), status: success("C") });
    manifest.send_all(&vec![a.clone(), b.clone()]);
    assert!(manifest.is_released());
    assert!(matches!(manifest.get(&a).map(|s| &**s), Some(QueryStatus::InProgress)));
    assert!(matches!(manifest.get(&b).map(|s| &**s), Some(QueryStatus::InProgress)));
    assert_eq!(title_of(manifest.get(&c)), Some("C".to_string()));
    let statuses = manifest.statuses(&vec![c.clone(), MediaItem::Movie(movie("/in/movies/D (2004).mkv")), a.clone()]);
    assert_eq!(statuses.len(), 3);
    assert_eq!(title_of(statuses[0].as_ref()), Some("C".to_string()));
    assert!(statuses[1].is_none());
    assert!(matches!(statuses[2].as_deref(), Some(QueryStatus::InProgress)));
}

#[test]
fn titles_come_from_successful_answers_only() {
    let movies = vec![movie("/in/movies/A (2001).mkv"), movie("/in/movies/B (2002).mkv")];
    let shows = vec![show("/in/shows/S")];
    let mut manifest = ApiManifest::new();
    manifest.update_api_call(ApiCall { item: MediaItem::Movie(movies[1].clone()), status: success("Bee") });
    manifest.update_api_call(ApiCall { item: MediaItem::Movie(movies[0].clone()), status: QueryStatus::InProgress });
    assert_eq!(manifest.movie_titles(&movies), vec![None, Some("Bee".to_string())]);
    assert_eq!(manifest.show_titles(&shows), vec![None]);
}

#[test]
fn media_list_sorts_by_found_titles_with_statuses() {
    let zodiac = movie("/in/movies/Zodiac (2007).mkv");
    let alien = movie("/in/movies/Alien (1979).mkv");
    let wire = show("/in/shows/The Wire");
    let catalog = Catalog {
        config: config(),
        movies: vec![alien.clone(), zodiac.clone()],
        shows: vec![wire.clone()],
        episodes: vec![],
        failures: vec![],
    };
    let mut manifest = ApiManifest::new();
    manifest.update_api_call(ApiCall { item: MediaItem::Movie(zodiac.clone()), status: success("Aardvark") });
    let mut list = MediaList::new();
    update_media_list(&mut list, &catalog, &manifest);
    let srcs: Vec<String> = list
        .inner
        .iter()
        .map(|i| match &i.inner {
            MediaItem::Movie(m) => m.src.clone(),
            MediaItem::Show(s) => s.src.clone(),
            MediaItem::Episode(e) => e.src.clone(),
        })
        .collect();
    assert_eq!(srcs, vec!["/in/movies/Zodiac (2007).mkv", "/in/movies/Alien (1979).mkv", "/in/shows/The Wire"]);
    assert!(matches!(&*list.inner[0].status, QueryStatus::Success(r) if r.title == "Aardvark"));
    assert!(matches!(&*list.inner[1].status, QueryStatus::NotStarted));
    assert!(matches!(&*list.inner[2].status, QueryStatus::NotStarted));
    assert_eq!(list.cursor.selected, Some(0));
}

#[test]
fn catalog_view_steps() {

    let mut view = CatalogViewState::new();
    assert!(matches!(view.update(ViewEvent::Key('p', false)), Some(ViewAction::StartBuild)));
    assert_eq!(view.info, InfoState::Generating);
    assert!(view.update(ViewEvent::Key('p', false)).is_none());

    let zodiac = movie("/in/movies/Zodiac (2007).mkv");
    let alien = movie("/in/movies/Alien (1979).mkv");
    let catalog = Catalog { config: config(), movies: vec![zodiac.clone(), alien.clone()], shows: vec![], episodes: vec![], failures: vec![] };
    match view.update(ViewEvent::CatalogBuilt(Some(catalog))) {
        Some(ViewAction::StageQueries(items)) => assert_eq!(items.len(), 2),
        _ => panic!("expected the queries to be staged"),
    }
    assert_eq!(view.info, InfoState::MediaInfo);
    assert_eq!(view.media_list.inner.len(), 2);
    assert_eq!(view.media_list.cursor.selected, Some(0));
    match view.probe_selected() {
        Some(ViewAction::Probe(_, path)) => assert_eq!(path, "/in/movies/Alien (1979).mkv"),
        _ => panic!("expected a probe"),
    }
    assert!(view.probe_selected().is_none());

    view.update(ViewEvent::Answered(ApiCall { item: MediaItem::Movie(zodiac.clone()), status: success("Zodiac") }));
    assert!(view.manifest.get(&MediaItem::Movie(zodiac.clone())).is_none());

    assert!(view.update(ViewEvent::Key('p', false)).is_none());
    assert!(view.manifest.is_released());
    assert!(matches!(view.manifest.get(&MediaItem::Movie(alien.clone())).map(|s| &**s), Some(QueryStatus::InProgress)));
    view.update(ViewEvent::Answered(ApiCall { item: MediaItem::Movie(zodiac.clone()), status: success("Zodiac") }));
    assert_eq!(title_of(view.manifest.get(&MediaItem::Movie(zodiac.clone()))), Some("Zodiac".to_string()));

    view.update(ViewEvent::Probed(MediaItem::Movie(alien.clone()), Err(FFprobeFailure::NoJsonOutput)));
    assert!(matches!(view.prober.get(&MediaItem::Movie(alien.clone())), Some(ProbeResult::Failure(_))));

    view.update(ViewEvent::Key('j', false));
    assert_eq!(view.media_list.cursor.selected, Some(1));
    assert!(matches!(view.update(ViewEvent::Key('o', false)), Some(ViewAction::LogItems)));
}

#[test]
fn items_are_equal_when_they_are_the_same_item() {
    let a = Arc::new(Movie::new(Some("/in/movies/Zodiac (2007).mkv".to_string())).unwrap().with_uid(1));
    let b = Arc::new(Movie::new(Some("/in/movies/Zodiac (2007).mkv".to_string())).unwrap().with_uid(2));
    assert!(MediaItem::Movie(a.clone()) == MediaItem::Movie(a.clone()));
    assert!(MediaItem::Movie(a.clone()) != MediaItem::Movie(b));
    let s = Arc::new(Show::new(Some("/in/movies/Zodiac (2007).mkv".to_string())).unwrap().with_uid(1));
    assert!(MediaItem::Movie(a) != MediaItem::Show(s));
}

#[test]
fn the_panel_never_goes_back() {
    let mut view = CatalogViewState::new();
    let mut trace = vec![view.info];
    view.update(ViewEvent::Key('j', false));
    trace.push(view.info);
    view.update(ViewEvent::Key('p', false));
    trace.push(view.info);
    view.update(ViewEvent::Key('p', false));
    trace.push(view.info);
    view.update(ViewEvent::CatalogBuilt(None));
    trace.push(view.info);
    view.update(ViewEvent::Key('p', false));
    trace.push(view.info);
    view.update(ViewEvent::CatalogBuilt(None));
    trace.push(view.info);
    assert_eq!(
        trace,
        vec![
            InfoState::Inactive,
            InfoState::Inactive,
            InfoState::Generating,
            InfoState::Generating,
            InfoState::MediaInfo,
            InfoState::MediaInfo,
            InfoState::MediaInfo,
        ]
    );
}
