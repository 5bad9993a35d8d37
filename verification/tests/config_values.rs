use jfi::config::{path_join, Config, ConfigCreationError, JfiConfig, Secrets, SecretsLoadError};

fn sample() -> JfiConfig {
    JfiConfig {
        VideoFileExtensions: "(mkv)".to_string(),
        CacheDir: Some("/cache".to_string()),
        IngestBaseDir: Some("/src".to_string()),
        IngestMovieDir: "movies".to_string(),
        IngestShowDir: "/abs/shows".to_string(),
        JfBaseDir: None,
        JfMovieDir: "/jf/movies".to_string(),
        JfShowDir: "jf-shows".to_string(),
    }
}

#[test]
fn joining_paths() {
    assert_eq!(path_join("/a", "b"), "/a/b");
    assert_eq!(path_join("/a/", "b"), "/a/b");
    assert_eq!(path_join("", "b"), "b");
    assert_eq!(path_join("/a", "/b"), "/b");
    assert_eq!(path_join("/a", ""), "/a/");
}

#[test]
fn joining_paths_agrees_with_std() {
    for (a, b) in [("/a", "b"), ("/a/", "b/c"), ("x", "/y"), ("rel", "other")] {
        let expected = std::path::Path::new(a).join(b);
        assert_eq!(path_join(a, b), expected.to_str().unwrap());
    }
}

#[test]
fn candidates_resolve_against_base_dirs() {
    assert_eq!(
        sample().candidates(),
        vec!["/src/movies".to_string(), "/abs/shows".to_string(), "/jf/movies".to_string(), "jf-shows".to_string()]
    );
}

#[test]
fn the_first_missing_directory_is_the_error() {
    let cases = [
        ([false, false, false, false], ConfigCreationError::IngestMovieDirDoesntExist),
        ([true, false, false, true], ConfigCreationError::IngestShowDirDoesntExist),
        ([true, true, false, false], ConfigCreationError::DstMovieDirDoesntExist),
        ([true, true, true, false], ConfigCreationError::DstShowDirDoesntExist),
    ];
    for (exists, err) in cases {
        assert_eq!(sample().try_into(&exists.to_vec()).err(), Some(err));
    }
}

#[test]
fn a_config_from_existing_directories() {
    let cfg: Config = sample().try_into(&vec![true, true, true, true]).unwrap();
    assert_eq!(cfg.CacheDir, Some("/cache".to_string()));
    assert_eq!(cfg.VideoFileExtensions, "(mkv)");
    assert_eq!(cfg.IngestMovieDir, "/src/movies");
    assert_eq!(cfg.IngestShowDir, "/abs/shows");
    assert_eq!(cfg.JfMovieDir, "/jf/movies");
    assert_eq!(cfg.JfShowDir, "jf-shows");
}

#[test]
fn default_config_file() {
    assert!(JfiConfig::default_config(None).is_none());
    let c = JfiConfig::default_config(Some("/home/u/.cache/jf-importer".to_string())).unwrap();
    assert_eq!(c.VideoFileExtensions, "(webm|mp4|mov|mkv|m4v|avi)");
    assert_eq!(c.CacheDir, Some("/home/u/.cache/jf-importer".to_string()));
    assert_eq!(c.IngestBaseDir, Some("/path/to/sources".to_string()));
    assert_eq!(c.JfBaseDir, Some("/path/to/jellyfin".to_string()));
    assert_eq!(c.IngestMovieDir, "movies");
    assert_eq!(c.IngestShowDir, "shows");
    assert_eq!(c.JfMovieDir, "movies");
    assert_eq!(c.JfShowDir, "tvseries");
}

#[test]
fn config_defaults() {
    let c = Config::default();
    assert_eq!(c.CacheDir, None);
    assert!(c.VideoFileExtensions.is_empty());
    assert_eq!(SecretsLoadError::default(), SecretsLoadError::RevertedToDefault);
}

#[test]
fn secrets_after_a_load() {
    let defaults = Secrets::default("/cfg/secrets.toml".to_string());
    assert_eq!(defaults.load_error, SecretsLoadError::RevertedToDefault);
    assert!(defaults.OMDB_KEY.is_empty() && defaults.TMDB_KEY.is_empty());
    let read = Secrets {
        source_file: "/cfg/secrets.toml".to_string(),
        load_error: SecretsLoadError::RevertedToDefault,
        OMDB_KEY: "o".to_string(),
        TMDB_KEY: "t".to_string(),
    };
    let loaded = Secrets::loaded(read.clone());
    assert_eq!(loaded.load_error, SecretsLoadError::Success);
    assert_eq!(loaded.TMDB_KEY, "t");
    assert_eq!(Secrets::from(Ok(loaded.clone()), defaults.clone()), loaded);
    let failed = Secrets::from(Err(SecretsLoadError::FailedToDeserialize), defaults.clone());
    assert_eq!(failed.load_error, SecretsLoadError::FailedToDeserialize);
    assert_eq!(failed.source_file, "/cfg/secrets.toml");
    assert!(failed.TMDB_KEY.is_empty());
}
