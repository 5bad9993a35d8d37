//! Configuration: where media is taken from and put, which files are videos,
//! and the secrets (API keys) used to query metadata.
use vstd::prelude::*;

use crate::text::{chars_of, extend_str, string_from_chars};

verus! {

/// How loading the secrets went.
#[derive(Clone, Debug, PartialEq, Eq, Structural)]
pub enum SecretsLoadError {
    Success,
    /// Not necessarily an error.
    RevertedToDefault,
    FailedToFindHomeDir,
    FileDoesNotExist,
    FailedToReadFile,
    FailedToDeserialize,
}

impl Default for SecretsLoadError {
    fn default() -> (res: Self)
        ensures
            res == SecretsLoadError::RevertedToDefault,
    {
        SecretsLoadError::RevertedToDefault
    }
}

/// Why a configuration could not be made.
#[derive(Clone, Debug, PartialEq, Eq, Structural)]
pub enum ConfigCreationError {
    IngestBaseDirDoesntExist,
    IngestMovieDirDoesntExist,
    IngestShowDirDoesntExist,
    DstBaseDirDoesntExist,
    DstMovieDirDoesntExist,
    DstShowDirDoesntExist,
}

/// A configuration of the library. `JfiConfig::try_into` makes one only when
/// it is told that each of the four resolved directories exists; whether they
/// do is a question for the file system, asked by the caller. The fields are
/// public, so a value built by hand carries no such check.
#[derive(Clone, Debug, PartialEq)]
pub struct Config {
    /// Cache directory; `None` when the home directory cannot be found.
    pub CacheDir: Option<String>,
    /// Pattern matching the names of video files.
    pub VideoFileExtensions: String,
    /// Directory of movies to import.
    pub IngestMovieDir: String,
    /// Directory of shows to import.
    pub IngestShowDir: String,
    /// Movie directory of the media library.
    pub JfMovieDir: String,
    /// Show directory of the media library.
    pub JfShowDir: String,
}

impl Default for Config {
    fn default() -> (res: Self)
        ensures
            res.CacheDir is None,
            res.VideoFileExtensions@.len() == 0,
            res.IngestMovieDir@.len() == 0,
            res.IngestShowDir@.len() == 0,
            res.JfMovieDir@.len() == 0,
            res.JfShowDir@.len() == 0,
    {
        Config {
            CacheDir: None,
            VideoFileExtensions: String::new(),
            IngestMovieDir: String::new(),
            IngestShowDir: String::new(),
            JfMovieDir: String::new(),
            JfShowDir: String::new(),
        }
    }
}

/// API keys, and how loading them went.
#[derive(Clone, Debug, PartialEq, Eq)]
pub struct Secrets {
    /// The file the secrets are read from.
    pub source_file: String,
    pub load_error: SecretsLoadError,
    pub OMDB_KEY: String,
    pub TMDB_KEY: String,
}

impl Secrets {
    /// The secrets that stand in when none were loaded: no keys, for the given file.
    pub fn default(source_file: String) -> (res: Secrets)
        ensures
            res.source_file@ == source_file@,
            res.load_error == SecretsLoadError::RevertedToDefault,
            res.OMDB_KEY@.len() == 0,
            res.TMDB_KEY@.len() == 0,
    {
        Secrets {
            source_file,
            load_error: SecretsLoadError::RevertedToDefault,
            OMDB_KEY: String::new(),
            TMDB_KEY: String::new(),
        }
    }

    /// The secrets a load gave: those read, or the defaults marked with the reason
    /// of the failure.
    pub fn from(value: Result<Secrets, SecretsLoadError>, defaults: Secrets) -> (res: Secrets)
        ensures
            match value {
                Ok(cfg) => res == cfg,
                Err(err) => res == (Secrets { load_error: err, ..defaults }),
            },
    {
        match value {
            Ok(cfg) => cfg,
            Err(err) => {
                let mut cfg = defaults;
                cfg.load_error = err;
                cfg
            },
        }
    }

    /// Secrets read from the file, marked as loaded.
    pub fn loaded(read: Secrets) -> (res: Secrets)
        ensures
            res == (Secrets { load_error: SecretsLoadError::Success, ..read }),
    {
        let mut secrets = read;
        secrets.load_error = SecretsLoadError::Success;
        secrets
    }
}

// ---------------------------------------------------------------------------
// The configuration file
// ---------------------------------------------------------------------------

/// `Path::join` on Unix: an absolute `dir` replaces `base`; otherwise `dir` is
/// appended, after a `/` unless `base` is empty or already ends in one.
pub open spec fn path_join_spec(base: Seq<char>, dir: Seq<char>) -> Seq<char> {
    if dir.len() > 0 && dir[0] == '/' {
        dir
    } else if base.len() == 0 || base.last() == '/' {
        base + dir
    } else {
        base + seq!['/'] + dir
    }
}

pub fn path_join(base: &str, dir: &str) -> (res: String)
    ensures
        res@ == path_join_spec(base@, dir@),
{
    let b = chars_of(base);
    let d = chars_of(dir);
    let mut out: Vec<char> = Vec::new();
    if d.len() > 0 && d[0] == '/' {
        extend_str(&mut out, dir);
    } else if b.len() == 0 || b[b.len() - 1] == '/' {
        extend_str(&mut out, base);
        extend_str(&mut out, dir);
    } else {
        extend_str(&mut out, base);
        out.push('/');
        extend_str(&mut out, dir);
    }
    string_from_chars(&out)
}

/// The configuration file's contents.
#[derive(Clone, Debug)]
pub struct JfiConfig {
    pub VideoFileExtensions: String,
    pub CacheDir: Option<String>,
    pub IngestBaseDir: Option<String>,
    pub IngestMovieDir: String,
    pub IngestShowDir: String,
    pub JfBaseDir: Option<String>,
    pub JfMovieDir: String,
    pub JfShowDir: String,
}

/// Where a directory of the configuration is: under the base directory when
/// there is one, else as written.
pub open spec fn resolved_dir(base: Option<String>, dir: String) -> Seq<char> {
    match base {
        Some(b) => path_join_spec(b@, dir@),
        None => dir@,
    }
}

fn resolve_dir(base: &Option<String>, dir: &String) -> (res: String)
    ensures
        res@ == resolved_dir(*base, *dir),
{
    match base {
        Some(b) => path_join(b.as_str(), dir.as_str()),
        None => dir.clone(),
    }
}

impl JfiConfig {
    /// The configuration written when there is no file: the common extensions of
    /// video files and placeholder directories. `None` when there is no cache
    /// directory (the home directory could not be found).
    pub fn default_config(cache_dir: Option<String>) -> (res: Option<JfiConfig>)
        ensures
            cache_dir is None ==> res is None,
            cache_dir is Some ==> res is Some,
            res matches Some(c) ==> {
                &&& c.CacheDir == cache_dir
                &&& c.VideoFileExtensions@ == "(webm|mp4|mov|mkv|m4v|avi)"@
                &&& c.IngestBaseDir matches Some(b) && b@ == "/path/to/sources"@
                &&& c.JfBaseDir matches Some(b) && b@ == "/path/to/jellyfin"@
                &&& c.IngestMovieDir@ == "movies"@
                &&& c.IngestShowDir@ == "shows"@
                &&& c.JfMovieDir@ == "movies"@
                &&& c.JfShowDir@ == "tvseries"@
            },
    {
        let cache = match cache_dir {
            Some(c) => c,
            None => {
                return None;
            },
        };
        Some(
            JfiConfig {
                VideoFileExtensions: String::from_str("(webm|mp4|mov|mkv|m4v|avi)"),
                CacheDir: Some(cache),
                IngestBaseDir: Some(String::from_str("/path/to/sources")),
                JfBaseDir: Some(String::from_str("/path/to/jellyfin")),
                IngestMovieDir: String::from_str("movies"),
                IngestShowDir: String::from_str("shows"),
                JfMovieDir: String::from_str("movies"),
                JfShowDir: String::from_str("tvseries"),
            },
        )
    }

    /// The four directories the configuration names, resolved: movies and shows
    /// to import, then movies and shows of the library.
    pub fn candidates(&self) -> (res: Vec<String>)
        ensures
            res@.len() == 4,
            res@[0]@ == resolved_dir(self.IngestBaseDir, self.IngestMovieDir),
            res@[1]@ == resolved_dir(self.IngestBaseDir, self.IngestShowDir),
            res@[2]@ == resolved_dir(self.JfBaseDir, self.JfMovieDir),
            res@[3]@ == resolved_dir(self.JfBaseDir, self.JfShowDir),
    {
        let mut out: Vec<String> = Vec::new();
        out.push(resolve_dir(&self.IngestBaseDir, &self.IngestMovieDir));
        out.push(resolve_dir(&self.IngestBaseDir, &self.IngestShowDir));
        out.push(resolve_dir(&self.JfBaseDir, &self.JfMovieDir));
        out.push(resolve_dir(&self.JfBaseDir, &self.JfShowDir));
        out
    }

    /// The configuration of the library, given which of the four resolved
    /// directories (in the order of `candidates`) exist: the first missing one
    /// is the error.
    pub fn try_into(self, exists: &Vec<bool>) -> (res: Result<Config, ConfigCreationError>)
        requires
            exists@.len() == 4,
        ensures
            !exists@[0] ==> res == Err::<Config, ConfigCreationError>(
                ConfigCreationError::IngestMovieDirDoesntExist,
            ),
            exists@[0] && !exists@[1] ==> res == Err::<Config, ConfigCreationError>(
                ConfigCreationError::IngestShowDirDoesntExist,
            ),
            exists@[0] && exists@[1] && !exists@[2] ==> res == Err::<Config, ConfigCreationError>(
                ConfigCreationError::DstMovieDirDoesntExist,
            ),
            exists@[0] && exists@[1] && exists@[2] && !exists@[3] ==> res == Err::<
                Config,
                ConfigCreationError,
            >(ConfigCreationError::DstShowDirDoesntExist),
            exists@[0] && exists@[1] && exists@[2] && exists@[3] ==> (res matches Ok(cfg)
                && cfg.CacheDir == self.CacheDir && cfg.VideoFileExtensions
                == self.VideoFileExtensions && cfg.IngestMovieDir@ == resolved_dir(
                self.IngestBaseDir,
                self.IngestMovieDir,
            ) && cfg.IngestShowDir@ == resolved_dir(self.IngestBaseDir, self.IngestShowDir)
                && cfg.JfMovieDir@ == resolved_dir(self.JfBaseDir, self.JfMovieDir)
                && cfg.JfShowDir@ == resolved_dir(self.JfBaseDir, self.JfShowDir)),
    {
        if !exists[0] {
            return Err(ConfigCreationError::IngestMovieDirDoesntExist);
        }
        if !exists[1] {
            return Err(ConfigCreationError::IngestShowDirDoesntExist);
        }
        if !exists[2] {
            return Err(ConfigCreationError::DstMovieDirDoesntExist);
        }
        if !exists[3] {
            return Err(ConfigCreationError::DstShowDirDoesntExist);
        }
        let ingest_movies = resolve_dir(&self.IngestBaseDir, &self.IngestMovieDir);
        let ingest_shows = resolve_dir(&self.IngestBaseDir, &self.IngestShowDir);
        let jf_movies = resolve_dir(&self.JfBaseDir, &self.JfMovieDir);
        let jf_shows = resolve_dir(&self.JfBaseDir, &self.JfShowDir);
        Ok(
            Config {
                CacheDir: self.CacheDir,
                VideoFileExtensions: self.VideoFileExtensions,
                IngestMovieDir: ingest_movies,
                IngestShowDir: ingest_shows,
                JfMovieDir: jf_movies,
                JfShowDir: jf_shows,
            },
        )
    }
}

} // verus!
