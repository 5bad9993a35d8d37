use std::sync::Arc;

use jfi::api_client::{ApiSpecificMediaId, QueryResponse, QueryStatus};
use jfi::api_error::QueryError;
use jfi::media_item::{MediaItem, Movie, Show};
use jfi::view_state::{
    catalog_info, decide_key, Blinker, BrailleLoadingIcon, InfoState, KeyAction, LabelColor, ListCursor,
    MediaList, MediaListItem, MessageHistory,
};

fn movie_item(path: &str, status: QueryStatus) -> MediaListItem {
    MediaListItem { inner: MediaItem::Movie(Arc::new(Movie::new(Some(path.to_string())).unwrap())), status: Arc::new(status) }
}

fn list(n: usize) -> MediaList {
    let mut l = MediaList::new();
    l.update_list((0..n).map(|i| movie_item(&format!("/m/{}.mkv", i), QueryStatus::NotStarted)).collect());
    l
}

fn success(title: &str) -> QueryStatus {
    QueryStatus::Success(QueryResponse {
        title: title.to_string(),
        year: 2000,
        imdb: None,
        tmdb: ApiSpecificMediaId::TMDB("1".to_string()),
    })
}

#[test]
fn cursor_moves() {
    let mut c = ListCursor::new();
    c.select_next();
    assert_eq!(c.selected, Some(0));
    c.select_next();
    assert_eq!(c.selected, Some(1));
    c.select_previous();
    c.select_previous();
    assert_eq!(c.selected, Some(0));
    let mut c = ListCursor::new();
    c.select_previous();
    assert_eq!(c.selected, Some(usize::MAX));
    c.select_next();
    assert_eq!(c.selected, Some(usize::MAX));
    c.scroll_up_by(10);
    assert_eq!(c.selected, Some(usize::MAX - 10));
    let mut c = ListCursor { offset: 4, selected: Some(3) };
    c.scroll_up_by(10);
    assert_eq!(c.selected, Some(0));
    c.scroll_down_by(7);
    assert_eq!(c.selected, Some(7));
    c.select(None);
    assert_eq!(c, ListCursor::new());
}

#[test]
fn list_selection_follows_updates() {
    let mut l = MediaList::new();
    assert_eq!(l.cursor.selected, None);
    l.update_list(vec![]);
    assert_eq!(l.cursor.selected, None);
    l.update_list(vec![movie_item("/m/a.mkv", QueryStatus::NotStarted)]);
    assert_eq!(l.cursor.selected, Some(0));
    l.goto_bottom();
    assert_eq!(l.cursor.selected, Some(1));
    l.update_list(vec![movie_item("/m/a.mkv", QueryStatus::NotStarted)]);
    assert_eq!(l.cursor.selected, Some(1));
    assert!(l.get_selected().is_none());
}

#[test]
fn list_navigation() {
    let mut l = list(3);
    l.select_next();
    l.select_next();
    assert_eq!(l.cursor.selected, Some(2));
    l.select_next();
    assert_eq!(l.cursor.selected, Some(2));
    l.goto_top();
    l.select_previous();
    assert_eq!(l.cursor.selected, Some(0));
    match l.get_selected() {
        Some(MediaItem::Movie(m)) => assert_eq!(m.src, "/m/0.mkv"),
        _ => panic!("no movie selected"),
    }
}

#[test]
fn moving_down_then_up_returns() {
    let mut l = list(5);
    l.select_next();
    l.select_next();
    let at = l.cursor.selected;
    l.select_next();
    l.select_previous();
    assert_eq!(l.cursor.selected, at);
    l.select_previous();
    l.select_next();
    assert_eq!(l.cursor.selected, at);
}

#[test]
fn half_pages() {
    let mut l = list(40);
    l.half_down();
    assert_eq!(l.cursor.selected, Some(0));
    l.set_height(20);
    l.half_down();
    assert_eq!(l.cursor.selected, Some(10));
    l.half_up();
    l.half_up();
    assert_eq!(l.cursor.selected, Some(0));
    let mut empty = MediaList::new();
    empty.set_height(9);
    empty.half_up();
    assert_eq!(empty.cursor.selected, Some(4));
}

#[test]
fn keys() {
    assert_eq!(decide_key('g', true, InfoState::Inactive, false), KeyAction::GotoTop);
    assert_eq!(decide_key('g', false, InfoState::Inactive, false), KeyAction::Nothing);
    assert_eq!(decide_key('G', false, InfoState::Inactive, false), KeyAction::GotoBottom);
    assert_eq!(decide_key('d', true, InfoState::Inactive, false), KeyAction::HalfDown);
    assert_eq!(decide_key('u', true, InfoState::Inactive, false), KeyAction::HalfUp);
    assert_eq!(decide_key('j', false, InfoState::Inactive, false), KeyAction::SelectNext);
    assert_eq!(decide_key('k', true, InfoState::Inactive, false), KeyAction::SelectPrevious);
    assert_eq!(decide_key('o', false, InfoState::Inactive, false), KeyAction::LogItems);
    assert_eq!(decide_key('p', false, InfoState::Inactive, false), KeyAction::GenerateCatalog);
    assert_eq!(decide_key('p', false, InfoState::Generating, true), KeyAction::Nothing);
    assert_eq!(decide_key('p', false, InfoState::MediaInfo, true), KeyAction::SendApiRequests);
    assert_eq!(decide_key('p', false, InfoState::MediaInfo, false), KeyAction::Nothing);
    assert_eq!(decide_key('x', false, InfoState::MediaInfo, true), KeyAction::Nothing);
    let mut l = list(3);
    l.apply(KeyAction::GotoBottom);
    assert_eq!(l.cursor.selected, Some(3));
    l.apply(KeyAction::SendApiRequests);
    assert_eq!(l.cursor.selected, Some(3));
    l.apply(KeyAction::SelectNext);
    assert_eq!(l.cursor.selected, Some(3));
    l.apply(KeyAction::GotoTop);
    assert_eq!(l.cursor.selected, Some(0));
    l.apply(KeyAction::SelectNext);
    l.apply(KeyAction::SelectNext);
    assert_eq!(l.cursor.selected, Some(2));
    l.apply(KeyAction::SelectPrevious);
    assert_eq!(l.cursor.selected, Some(1));
    l.set_height(4);
    l.apply(KeyAction::HalfUp);
    assert_eq!(l.cursor.selected, Some(0));
    l.apply(KeyAction::HalfDown);
    assert_eq!(l.cursor.selected, Some(2));
}

#[test]
fn loading_icon() {
    let mut icon = BrailleLoadingIcon::default();
    assert_eq!(icon.frame(), '⠇');
    let now = std::time::Instant::now();
    icon.tick_after(99, now);
    assert_eq!(icon.to_string(), "⠇");
    let frames: Vec<char> = (0..9)
        .map(|_| {
            icon.tick_after(100, now);
            icon.frame()
        })
        .collect();
    assert_eq!(frames, vec!['⠋', '⠙', '⠸', '⢰', '⣠', '⣄', '⡆', '⠇', '⠋']);
    icon.tick_next();
}

#[test]
fn blinker() {
    assert_eq!(Blinker::new().text(), "");
    assert_eq!(Blinker { on: true }.text(), " ");
}

#[test]
fn item_labels() {
    let icon = BrailleLoadingIcon::default();
    let item = movie_item("/m/Heat (1995).mkv", QueryStatus::NotStarted);
    assert_eq!(item.name(), "Heat");
    assert_eq!(item.status_label(&icon), ("[Not Started]".to_string(), LabelColor::Plain));
    let item = movie_item("/m/Heat.mkv", QueryStatus::InProgress);
    assert_eq!(item.status_label(&icon), ("⠇".to_string(), LabelColor::Plain));
    let item = movie_item("/m/Heat.mkv", QueryStatus::Failed(QueryError::FailedToQueryApi));
    assert_eq!(item.status_label(&icon), ("[ ✗ ]".to_string(), LabelColor::Red));
    let item = movie_item("/m/Heat.mkv", success("Heat"));
    assert_eq!(item.status_label(&icon).1, LabelColor::Green);
    assert_eq!(item.try_name(), Some("Heat".to_string()));
    let show = MediaListItem { inner: MediaItem::Show(Arc::new(Show::new(Some("/s/The Wire (2002)".to_string())).unwrap())), status: Arc::new(QueryStatus::NotStarted) };
    assert_eq!(show.name(), "The Wire (2002)");
}

#[test]
fn info_counts() {
    let statuses = vec![
        Some(Arc::new(success("a"))),
        Some(Arc::new(QueryStatus::Failed(QueryError::NoSearchResultsFromApi))),
        None,
        Some(Arc::new(QueryStatus::InProgress)),
        Some(Arc::new(success("b"))),
    ];
    let (s, all_ok, f, any_failed) = catalog_info(&statuses);
    assert_eq!(s, "Successs: 2/5");
    assert_eq!(f, "Failures: 1/5");
    assert!(!all_ok);
    assert!(any_failed);
    let (s, all_ok, f, any_failed) = catalog_info(&vec![Some(Arc::new(success("a")))]);
    assert_eq!((s.as_str(), all_ok, f.as_str(), any_failed), ("Successs: 1/1", true, "Failures: 0/1", false));
    let (s, all_ok, _, _) = catalog_info(&vec![]);
    assert_eq!(s, "Successs: 0/0");
    assert!(all_ok);
}

#[test]
fn message_history() {
    let mut h = MessageHistory::new();
    assert!(!h.shows_new_message());
    h.receive("one".to_string());
    assert!(h.shows_new_message());
    h.receive("two".to_string());
    assert_eq!(h.last, (Some("one".to_string()), Some("two".to_string())));
    h.receive("two".to_string());
    assert!(!h.shows_new_message());
    h.receive_error("RegexError");
    assert!(h.has_received_error);
    assert_eq!(h.last.1, Some("Received error from sender: RegexError".to_string()));
}
