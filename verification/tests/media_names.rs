use jfi::media_item::{auto_trim_search_term, tag_extract, EpisodeId, Episode, Movie, Show, MediaCreateError};
use regex::Regex;

fn regex_trim(term: &str) -> String {
    let tag_trim = Regex::new(r"( *\[.*?\] *| *\(.*?\) *)").unwrap();
    let decoration_trim = Regex::new(r"- *$").unwrap();
    let term: String = tag_trim.split(term).collect();
    let term: String = decoration_trim.split(&term).collect();
    term.trim().to_string()
}

fn regex_tags(term: &str) -> Vec<String> {
    let year_re = Regex::new(r"\([0-9]+?\)").unwrap();
    let id_re = Regex::new(r"(\[[a-z]+?id-[a-z]*[0-9]+?\]|\[[a-z]*[0-9]+\])").unwrap();
    let tag_re = Regex::new(r"\[.*?\]").unwrap();
    let minus_year: String = year_re.split(term).collect();
    let minus_year_and_id: String = match id_re.find(&minus_year) {
        Some(m) => {
            let (left, garb_and_right) = minus_year.split_at(m.start());
            let (_garb, right) = garb_and_right.split_at(m.len());
            left.to_string() + right
        }
        None => minus_year.clone(),
    };
    tag_re
        .find_iter(&minus_year_and_id)
        .map(|m| {
            let mut chars = m.as_str().chars();
            chars.next();
            chars.next_back();
            chars.as_str().to_string()
        })
        .collect()
}

const SAMPLES: &[&str] = &[
    "Mission: Impossible III - [dvd]",
    "Pirates of the Caribbean - At World's End (2007) [tt0449088] [Bluray-1080p]",
    "Movie (2001) [imdbid-tt123] [tmdbid-55] [1080p]",
    "  spaced   [a] (b)  -  ",
    "x [unclosed",
    "x (unclosed",
    "a [b\nc] d",
    "[first][second] third",
    "abc--  ",
    "a - b - ",
    "(12)(34)[5x](abc)",
    "[abid-12x3] [ab9] [9]",
    "[id-12] [xid-] [xid-7]",
    "Show S01E02 (1999) [tvdbid-1]",
    "((2000)) [[tt1]]",
    "",
    "-",
    " \t[a]\t ",
    "[ ] ( ) [x]y(z)",
    "é [ü1] (ß) —",
];

#[test]
fn search_term_matches_regex_reference() {
    for s in SAMPLES {
        assert_eq!(auto_trim_search_term(s), regex_trim(s), "input {:?}", s);
    }
}

#[test]
fn tags_match_regex_reference() {
    for s in SAMPLES {
        assert_eq!(tag_extract(s), regex_tags(s), "input {:?}", s);
    }
}

#[test]
fn search_term_doc_examples() {
    assert_eq!(auto_trim_search_term("Mission: Impossible III - [dvd]"), "Mission: Impossible III");
    assert_eq!(
        auto_trim_search_term("Pirates of the Caribbean - At World's End (2007) [tt0449088] [Bluray-1080p]"),
        "Pirates of the Caribbean - At World's End"
    );
}

#[test]
fn tag_extract_drops_year_and_first_id() {
    assert_eq!(
        tag_extract("Pirates of the Caribbean - At World's End (2007) [tt0449088] [Bluray-1080p]"),
        vec!["Bluray-1080p".to_string()]
    );
    assert_eq!(
        tag_extract("Movie [tmdbid-55] [imdbid-tt123] [1080p]"),
        vec!["imdbid-tt123".to_string(), "1080p".to_string()]
    );
}

#[test]
fn movie_from_path() {
    let m = Movie::new(Some("/media/movies/Heat (1995) [tt0113277] [Bluray].mkv".to_string())).unwrap();
    assert_eq!(m.search_term, "Heat");
    assert_eq!(m.tags, vec!["Bluray".to_string()]);
    assert_eq!(m.raw_media_label(), "Heat");
    assert!(matches!(Movie::new(Some(String::new())), Err(MediaCreateError::IncorrectFileTypeSupplied)));
}

#[test]
fn show_from_path() {
    let s = Show::new(Some("/media/shows/The Wire (2002)".to_string())).unwrap();
    assert_eq!(s.search_term, "The Wire");
    assert_eq!(s.raw_media_label(), "The Wire (2002)");
    assert!(matches!(Show::new(Some("/media/..".to_string())), Err(MediaCreateError::IncorrectFileTypeSupplied)));
}

#[test]
fn episode_id_formats() {
    assert_eq!(EpisodeId::Traditional { season: 1, episode: 2 }.to_string(), "S01E02");
    assert_eq!(EpisodeId::Traditional { season: 12, episode: 345 }.to_string(), "S12E345");
    assert_eq!(EpisodeId::Anime { episode: 7 }.into_string(), "7");
}

#[test]
fn episode_from_path() {
    let e = Episode::new(Some("/shows/Wire/Season 1/the.wire.s01e05.mkv".to_string()), true, "/shows/Wire".to_string()).unwrap();
    assert_eq!(e.id, EpisodeId::Traditional { season: 1, episode: 5 });
    assert_eq!(e.raw_media_label(), "S01E05");
    let e = Episode::new(Some("/shows/x/S3E004 and S01E01".to_string()), true, String::new()).unwrap();
    assert_eq!(e.id, EpisodeId::Traditional { season: 3, episode: 4 });
    assert!(matches!(
        Episode::new(Some("/shows/x/Special.mkv".to_string()), true, String::new()),
        Err(MediaCreateError::EpisodeIncorrectFormat)
    ));
    assert!(matches!(
        Episode::new(Some("/shows/x/S01E01.mkv".to_string()), false, String::new()),
        Err(MediaCreateError::IncorrectFileTypeSupplied)
    ));
}

#[test]
fn episode_id_text_reads_back_as_the_same_id() {
    let id = EpisodeId::Traditional { season: 1, episode: 2 };
    let text = id.to_string();
    assert_eq!(text, "S01E02");
    let ep = Episode::new(Some(format!("/in/shows/Show/{}.mkv", text)), true, "/in/shows/Show".to_string()).unwrap();
    assert!(matches!(ep.id, EpisodeId::Traditional { season: 1, episode: 2 }));
    let wide = EpisodeId::Traditional { season: 123, episode: 4567 };
    let ep = Episode::new(Some(format!("/x/{}.mkv", wide.to_string())), true, "/x".to_string()).unwrap();
    assert!(matches!(ep.id, EpisodeId::Traditional { season: 123, episode: 4567 }));
}

#[test]
fn paths_that_are_not_unicode_make_no_item() {
    assert!(matches!(Movie::new(None), Err(MediaCreateError::PathNotUnicode)));
    assert!(matches!(Show::new(None), Err(MediaCreateError::PathNotUnicode)));
    assert!(matches!(Episode::new(None, true, String::new()), Err(MediaCreateError::PathNotUnicode)));
    assert!(matches!(Episode::new(None, false, String::new()), Err(MediaCreateError::PathNotUnicode)));
}
