use std::sync::Arc;

use jfi::api_client::{ApiSpecificMediaId, QueryResponse, QueryStatus};
use jfi::api_error::QueryError;
use jfi::api_manifest::ApiManifest;
use jfi::config::Config;
use jfi::media_catalog::{generate_catalog_tree, EnvVarError, MediaCatalog, ShowListing, TreeGenError, WalkEntry};
use jfi::media_item::{Episode, EpisodeId, MediaCreateError, MediaItem, Movie, Show};
use jfi::miller::{decide_column_key, ColumnKey, MillerColumn, MillerColumns};
use jfi::tree::TreeNode;

fn config() -> Arc<Config> {
    Arc::new(Config {
        CacheDir: None,
        VideoFileExtensions: "(mkv|mp4)".to_string(),
        IngestMovieDir: "/in/movies".to_string(),
        IngestShowDir: "/in/shows".to_string(),
        JfMovieDir: "/jf/movies".to_string(),
        JfShowDir: "/jf/shows".to_string(),
    })
}

fn file(path: &str) -> WalkEntry {
    let name = path.rsplit('/').next().unwrap().to_string();
    WalkEntry { path: path.to_string(), unicode: true, name, is_file: true, is_dir: false }
}

fn dir(path: &str) -> WalkEntry {
    let name = path.rsplit('/').next().unwrap().to_string();
    WalkEntry { path: path.to_string(), unicode: true, name, is_file: false, is_dir: true }
}

fn response(title: &str, imdb: Option<&str>) -> QueryResponse {
    QueryResponse {
        title: title.to_string(),
        year: 1999,
        imdb: imdb.map(|s| s.to_string()),
        tmdb: ApiSpecificMediaId::TMDB("603".to_string()),
    }
}

fn children(node: &TreeNode) -> &Vec<TreeNode> {
    node.children().unwrap()
}

fn category_name(node: &TreeNode) -> &str {
    match node {
        TreeNode::Category { name, .. } => name,
        _ => panic!("not a category"),
    }
}

#[test]
fn a_new_catalog() {
    let c = MediaCatalog::new(config());
    assert!(c.movies.is_empty() && c.shows.is_empty() && c.episodes.is_empty());
    assert_eq!(c.status, vec!["Waiting for Feedback!".to_string()]);
    assert_eq!(category_name(&c.tree), "Uninitialized Tree");
    assert!(children(&c.tree).is_empty());
}

#[test]
fn generation_errors() {
    let c = MediaCatalog::new(config());
    assert!(matches!(c.generate_catalog_tree(false, true, &vec![], &vec![], &mut ApiManifest::new()), Err(TreeGenError::MoviesDirDoesntExist)));
    let c = MediaCatalog::new(config());
    assert!(matches!(c.generate_catalog_tree(true, false, &vec![], &vec![], &mut ApiManifest::new()), Err(TreeGenError::ShowsDirDoesntExist)));
    let mut cfg = (*config()).clone();
    cfg.VideoFileExtensions = "(mkv".to_string();
    let c = MediaCatalog::new(Arc::new(cfg));
    assert!(matches!(c.generate_catalog_tree(true, true, &vec![], &vec![], &mut ApiManifest::new()), Err(TreeGenError::RegexError(_))));
}

#[test]
fn generating_a_catalog_tree() {
    let movies = vec![
        file("/in/movies/Heat (1995).mkv"),
        file("/in/movies/notes.txt"),
        dir("/in/movies/extras.mkv"),
        file("/in/movies/..mkv"),
    ];
    let shows = vec![
        ShowListing {
            dir: dir("/in/shows/The Wire"),
            contents: vec![
                dir("/in/shows/The Wire/Season 1"),
                file("/in/shows/The Wire/Season 1/wire.s01e01.mkv"),
                file("/in/shows/The Wire/Season 1/wire.S01E02.mkv"),
                file("/in/shows/The Wire/Season 1/featurette.mkv"),
            ],
        },
        ShowListing { dir: dir("/in/shows/temp"), contents: vec![file("/in/shows/temp/S01E01.mkv")] },
        ShowListing { dir: file("/in/shows/stray.mkv"), contents: vec![] },
    ];
    let c = MediaCatalog::new(config()).generate_catalog_tree(true, true, &movies, &shows, &mut ApiManifest::new()).unwrap();
    assert_eq!(c.movies.len(), 2);
    assert_eq!(c.movies[0].search_term, "Heat");
    assert_eq!(c.shows.len(), 1);
    assert_eq!(c.shows[0].search_term, "The Wire");
    assert_eq!(c.episodes.len(), 2);
    assert_eq!(c.shows[0].episodes.len(), 2);
    assert_eq!(c.episodes[1].id, EpisodeId::Traditional { season: 1, episode: 2 });
    assert_eq!(c.episodes[1].parent, "/in/shows/The Wire");
    assert_eq!(
        c.status,
        vec![
            "Waiting for Feedback!",
            "[Movie]   Found: Heat (1995).mkv",
            "[Movie]   Found: ..mkv",
            "[Show]    Found: The Wire",
            "[Show]    Looking for Episodes: The Wire",
            "[Episode] Found: The Wire/Season 1/wire.s01e01.mkv",
            "[Episode] Found: The Wire/Season 1/wire.S01E02.mkv",
            "[Episode] Found: The Wire/Season 1/featurette.mkv",
        ]
    );
    let top = children(&c.tree);
    assert_eq!(category_name(&c.tree), ".");
    assert_eq!(top.iter().map(category_name).collect::<Vec<_>>(), vec!["Movies", "Shows", "Failures"]);
    assert_eq!(children(&top[0]).len(), 2);
    assert_eq!(children(&children(&top[1])[0]).len(), 2);
    let fails: Vec<(MediaCreateError, String)> = children(&top[2])
        .iter()
        .map(|n| match n {
            TreeNode::Fail { err, buf } => (err.clone(), buf.clone()),
            _ => panic!("not a failure"),
        })
        .collect();
    assert_eq!(fails, vec![(MediaCreateError::EpisodeIncorrectFormat, "/in/shows/The Wire/Season 1/featurette.mkv".to_string())]);
}

#[test]
fn each_kept_entry_is_a_movie_or_a_failure() {
    let movies = vec![file("/m/a.mkv"), file("/m/b.mp4"), file("/m/c.txt"), file("/m/..mkv"), file("/m/d.mkv")];
    let c = MediaCatalog::new(config()).generate_catalog_tree(true, true, &movies, &vec![], &mut ApiManifest::new()).unwrap();
    let reported = c.status.len() - 1;
    let fails = children(&children(&c.tree)[2]).len();
    assert_eq!(reported, 4);
    assert_eq!(c.movies.len() + fails, reported);
}

#[test]
fn node_labels() {
    let movie = Arc::new(Movie::new(Some("/m/Matrix.mkv".to_string())).unwrap());
    let node = TreeNode::movie_node(movie.clone());
    assert_eq!(node.label(&QueryStatus::NotStarted, &QueryStatus::NotStarted), "[NotStarted] /m/Matrix.mkv");
    assert_eq!(node.label(&QueryStatus::InProgress, &QueryStatus::NotStarted), "[InProgress] /m/Matrix.mkv");
    assert_eq!(
        node.label(&QueryStatus::Failed(QueryError::UnsetApiKey), &QueryStatus::NotStarted),
        "[Failed(UnsetApiKey)] /m/Matrix.mkv"
    );
    assert_eq!(
        node.label(&QueryStatus::Success(response("The Matrix", Some("tt0133093"))), &QueryStatus::NotStarted),
        "The Matrix (1999) [imdbid-tt0133093]"
    );
    assert_eq!(
        node.label(&QueryStatus::Success(response("The Matrix", None)), &QueryStatus::NotStarted),
        "The Matrix (1999) [tmdbid-603]"
    );
    let ep = Arc::new(Episode::new(Some("/s/W/S01E01.mkv".to_string()), true, "/s/W".to_string()).unwrap());
    let node = TreeNode::episode_node(ep);
    assert_eq!(node.label(&QueryStatus::NotStarted, &QueryStatus::NotStarted), "Parent query Failed: /s/W/S01E01.mkv");
    assert_eq!(
        node.label(&QueryStatus::NotStarted, &QueryStatus::Success(response("W", None))),
        "W (1999) [tmdbid-603]"
    );
    let fail = TreeNode::Fail { err: MediaCreateError::PathNotUnicode, buf: "/a \"b\"".to_string() };
    assert_eq!(fail.label(&QueryStatus::NotStarted, &QueryStatus::NotStarted), "Parse Failure: \"/a \\\"b\\\"\"");
    assert!(fail.children().is_none());
    assert!(!TreeNode::movie_node(movie).is_queried(&QueryStatus::InProgress));
}

#[test]
fn pushing_children() {
    let mut cat = TreeNode::Category { name: "Movies".to_string(), children: vec![] };
    let movie = Arc::new(Movie::new(Some("/m/Heat.mkv".to_string())).unwrap());
    cat.push_child(TreeNode::movie_node(movie));
    assert_eq!(children(&cat).len(), 1);
    let show = Arc::new(Show::new(Some("/s/Wire".to_string())).unwrap());
    let show_node = TreeNode::show_node(show);
    assert!(children(&show_node).is_empty());
    assert!(matches!(show_node, TreeNode::Item { inner: MediaItem::Show(_), .. }));
}

fn sample_tree() -> TreeNode {
    let movies = vec![file("/in/movies/A.mkv"), file("/in/movies/B.mkv")];
    let shows = vec![ShowListing {
        dir: dir("/in/shows/W"),
        contents: vec![file("/in/shows/W/S01E01.mkv"), file("/in/shows/W/S01E02.mkv")],
    }];
    MediaCatalog::new(config()).generate_catalog_tree(true, true, &movies, &shows, &mut ApiManifest::new()).unwrap().tree
}

#[test]
fn miller_columns_walk_the_tree() {
    let tree = sample_tree();
    let first = MillerColumn::new(vec![], children(&tree).len());
    assert_eq!(first.selected, Some(0));
    let mut cols = MillerColumns::new(first, &tree);
    assert_eq!(cols.count(), 2);
    assert_eq!(cols.next.as_ref().unwrap().parent, vec![0]);
    assert_eq!(cols.next.as_ref().unwrap().len, 2);
    cols.select_next(&tree);
    assert_eq!(cols.curr.selected, Some(1));
    assert_eq!(category_name(cols.curr.get_selected(&tree)), "Shows");
    cols.step_into(&tree);
    assert_eq!(cols.prev.len(), 1);
    assert_eq!(cols.curr.parent, vec![1]);
    assert_eq!(cols.next.as_ref().unwrap().parent, vec![1, 0]);
    cols.step_into(&tree);
    assert_eq!(cols.curr.parent, vec![1, 0]);
    assert!(cols.next.is_none());
    assert_eq!(cols.count(), 3);
    cols.step_into(&tree);
    assert_eq!(cols.curr.parent, vec![1, 0]);
    cols.select_prev(&tree);
    assert_eq!(cols.curr.selected, Some(0));
    cols.select_prev(&tree);
    assert_eq!(cols.curr.selected, Some(0));
}

#[test]
fn stepping_in_and_out_returns_to_the_same_columns() {
    let tree = sample_tree();
    let mut cols = MillerColumns::new(MillerColumn::new(vec![], 3), &tree);
    let before = (cols.prev.len(), cols.curr.parent.clone(), cols.curr.selected, cols.next.as_ref().map(|c| c.parent.clone()));
    cols.step_into(&tree);
    cols.step_out();
    let after = (cols.prev.len(), cols.curr.parent.clone(), cols.curr.selected, cols.next.as_ref().map(|c| c.parent.clone()));
    assert_eq!(before, after);
    cols.step_out();
    let again = (cols.prev.len(), cols.curr.parent.clone(), cols.curr.selected, cols.next.as_ref().map(|c| c.parent.clone()));
    assert_eq!(after, again);
}

fn cat(name: &str, children: Vec<TreeNode>) -> TreeNode {
    TreeNode::Category { name: name.to_string(), children }
}

#[test]
fn tree_indents_draw_branches_and_columns() {
    let root = cat("Root", vec![cat("A", vec![cat("A1", vec![]), cat("A2", vec![])]), cat("B", vec![cat("B1", vec![])])]);
    let indents = root.tree_indents(true);
    assert_eq!(indents, vec!["", "├── ", "│   ├── ", "│   └── ", "└── ", "    └── "]);
}

#[test]
fn tree_indents_hide_failures_unless_asked() {
    let root = cat("Root", vec![cat("Movies", vec![]), cat("Failures", vec![cat("bad", vec![])])]);
    assert_eq!(root.tree_indents(false), vec!["", "├── ", "└── "]);
    assert_eq!(root.tree_indents(true), vec!["", "├── ", "└── ", "    └── "]);
    assert!(root.children().unwrap()[1].hides_children_when(false));
    assert!(!root.children().unwrap()[1].hides_children_when(true));
}

#[test]
fn column_keys_move_and_step() {
    assert_eq!(decide_column_key('j'), ColumnKey::SelectNext);
    assert_eq!(decide_column_key('k'), ColumnKey::SelectPrev);
    assert_eq!(decide_column_key('l'), ColumnKey::StepInto);
    assert_eq!(decide_column_key('h'), ColumnKey::StepOut);
    assert_eq!(decide_column_key('p'), ColumnKey::MakeApiCalls);
    assert_eq!(decide_column_key('x'), ColumnKey::Nothing);
    let tree = sample_tree();
    let mut cols = MillerColumns::new(MillerColumn::new(vec![], 3), &tree);
    cols.apply(decide_column_key('j'), &tree);
    assert_eq!(cols.curr.selected, Some(1));
    cols.apply(decide_column_key('l'), &tree);
    assert_eq!(cols.curr.parent, vec![1]);
    cols.apply(decide_column_key('p'), &tree);
    assert_eq!(cols.curr.parent, vec![1]);
    assert_eq!(cols.prev.len(), 1);
    cols.apply(decide_column_key('h'), &tree);
    assert_eq!(cols.prev.len(), 0);
    assert_eq!(cols.curr.selected, Some(1));
}

#[test]
fn children_mut_changes_the_node_in_place() {
    let mut root = cat("Root", vec![cat("A", vec![])]);
    root.children_mut().unwrap().push(cat("B", vec![]));
    assert_eq!(root.children().unwrap().len(), 2);
    assert_eq!(category_name(&root.children().unwrap()[1]), "B");
    let mut fail = TreeNode::Fail { err: MediaCreateError::PathNotUnicode, buf: "/x".to_string() };
    assert!(fail.children_mut().is_none());
}

#[test]
fn generating_registers_every_item_as_not_started() {
    let movies = vec![file("/in/movies/A.mkv")];
    let shows = vec![ShowListing { dir: dir("/in/shows/W"), contents: vec![file("/in/shows/W/S01E01.mkv")] }];
    let mut calls = ApiManifest::new();
    let c = MediaCatalog::new(config()).generate_catalog_tree(true, true, &movies, &shows, &mut calls).unwrap();
    let items = vec![
        MediaItem::Movie(c.movies[0].clone()),
        MediaItem::Show(c.shows[0].clone()),
        MediaItem::Episode(c.episodes[0].clone()),
    ];
    for status in calls.statuses(&items) {
        assert!(matches!(status.as_deref(), Some(QueryStatus::NotStarted)));
    }
    assert!(!calls.is_released());
}

#[test]
fn generating_from_the_environment() {
    let movies = vec![file("/src/movies/A.mkv")];
    let shows = vec![ShowListing { dir: dir("/src/shows/W"), contents: vec![file("/src/shows/W/S01E01.mkv")] }];
    let ok = |s: &str| Ok::<String, EnvVarError>(s.to_string());
    assert!(matches!(
        generate_catalog_tree(Err(EnvVarError::NotPresent), ok("mkv"), true, true, &movies, &shows),
        Err(TreeGenError::EnvVarNotSet)
    ));
    assert!(matches!(
        generate_catalog_tree(ok("/src"), Err(EnvVarError::NotUnicode(vec![0xff])), true, true, &movies, &shows),
        Err(TreeGenError::EnvVarNotUnicode(b)) if b == vec![0xff]
    ));
    assert!(matches!(
        generate_catalog_tree(ok("/src"), Err(EnvVarError::NotPresent), false, true, &movies, &shows),
        Err(TreeGenError::MoviesDirDoesntExist)
    ));
    assert!(matches!(generate_catalog_tree(ok("/src"), ok("("), true, true, &movies, &shows), Err(TreeGenError::RegexSyntaxError(_))));
    let c = generate_catalog_tree(ok("/src"), ok("mkv$"), true, true, &movies, &shows).unwrap();
    assert_eq!(c.config.IngestShowDir, "/src/shows");
    assert_eq!(c.movies.len(), 1);
    assert_eq!(c.shows.len(), 1);
    assert_eq!(c.episodes.len(), 1);
}

#[test]
fn a_generated_catalog_numbers_its_items() {
    let movies = vec![file("/in/movies/A.mkv"), file("/in/movies/A.mkv"), file("/in/movies/B ignore.mkv")];
    let shows = vec![
        ShowListing { dir: dir("/in/shows/W"), contents: vec![file("/in/shows/W/S01E01.mkv"), file("/in/shows/W/S01E02.mkv")] },
        ShowListing { dir: dir("/in/shows/X"), contents: vec![file("/in/shows/X/S01E01.mkv")] },
    ];
    let mut calls = ApiManifest::new();
    let c = MediaCatalog::new(config()).generate_catalog_tree(true, true, &movies, &shows, &mut calls).unwrap();
    assert_eq!(c.movies.iter().map(|m| m.uid).collect::<Vec<_>>(), vec![0, 1]);
    assert_eq!(c.shows.iter().map(|s| s.uid).collect::<Vec<_>>(), vec![0, 1]);
    assert_eq!(c.episodes.iter().map(|e| e.uid).collect::<Vec<_>>(), vec![0, 1, 2]);
    let first = MediaItem::Movie(c.movies[0].clone());
    let second = MediaItem::Movie(c.movies[1].clone());
    assert!(first != second);
    calls.update_api_call(jfi::api_manifest::ApiCall { item: first.clone(), status: QueryStatus::InProgress });
    assert!(matches!(calls.get(&second).map(|s| &**s), Some(QueryStatus::NotStarted)));
}

#[test]
fn paths_that_are_not_unicode_are_failures() {
    let mut odd_movie = file("/in/movies/Od\u{FFFD}.mkv");
    odd_movie.unicode = false;
    let mut odd_episode = file("/in/shows/Lost/Lost S01E0\u{FFFD}.mkv");
    odd_episode.unicode = false;
    let mut odd_show = dir("/in/shows/B\u{FFFD}d");
    odd_show.unicode = false;
    let shows = vec![
        ShowListing { dir: dir("/in/shows/Lost"), contents: vec![file("/in/shows/Lost/Lost S01E02.mkv"), odd_episode] },
        ShowListing { dir: odd_show, contents: vec![] },
    ];
    let c = MediaCatalog::new(config())
        .generate_catalog_tree(true, true, &vec![file("/in/movies/Heat.mkv"), odd_movie], &shows, &mut ApiManifest::new())
        .unwrap();
    assert_eq!(c.movies.len(), 1);
    assert_eq!(c.shows.len(), 1);
    assert_eq!(c.episodes.len(), 1);
    let fails: Vec<(MediaCreateError, String)> = children(&children(&c.tree)[2])
        .iter()
        .map(|n| match n {
            TreeNode::Fail { err, buf } => (err.clone(), buf.clone()),
            _ => panic!("not a failure"),
        })
        .collect();
    assert_eq!(
        fails,
        vec![
            (MediaCreateError::PathNotUnicode, "/in/movies/Od\u{FFFD}.mkv".to_string()),
            (MediaCreateError::PathNotUnicode, "/in/shows/B\u{FFFD}d".to_string()),
            (MediaCreateError::PathNotUnicode, "/in/shows/Lost/Lost S01E0\u{FFFD}.mkv".to_string()),
        ]
    );
}
