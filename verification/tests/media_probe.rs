use jfi::ffprobe::{
    bit_rate_or_bps, stream_kind, unknown_codec_message, FFprobeFailure, FFprobeFormat, FFprobeMediaInfo, FFprobeStream,
    Language, StreamKind,
};
use jfi::flux::{Dispatch, UnspecificStore};
use jfi::media_item::{MediaItem, Movie};
use jfi::prober::{ProbeResult, Prober};
use std::sync::Arc;
use jfi::streams::{AudioStream, DataStream, SubtitleStream, VideoStream};

fn video(w: u32, h: u32) -> FFprobeStream {
    FFprobeStream::Video(VideoStream { codec_name: "h264".to_string(), width: w, height: h, bit_rate: None })
}

fn audio(lang: Option<Language>) -> FFprobeStream {
    FFprobeStream::Audio(AudioStream { codec_name: "aac".to_string(), bit_rate: None, sample_rate: None, language: lang })
}

fn info(streams: Vec<FFprobeStream>) -> FFprobeMediaInfo {
    FFprobeMediaInfo {
        streams,
        format: FFprobeFormat { size: size::Size::from_bytes(10), bit_rate: size::Size::from_bytes(1), language: None },
    }
}

#[test]
fn language_codes_are_read_case_insensitively() {
    assert!(matches!(Language::from("eng"), Language::English));
    assert!(matches!(Language::from("EN-US"), Language::English));
    assert!(matches!(Language::from("Ja"), Language::Japanese));
    assert!(matches!(Language::from("pt_BR"), Language::Portuguese_BR));
    assert!(matches!(Language::from("zh-HK"), Language::Chinese_Hant));
    assert!(matches!(Language::from("und"), Language::Undetermined));
    match Language::from("Klingon") {
        Language::Other(s) => assert_eq!(s, "klingon"),
        other => panic!("unexpected {:?}", other),
    }
}

#[test]
fn language_names() {
    assert_eq!(Language::English.into(), "en");
    assert_eq!(Language::Portuguese_BR.into(), "pt-br");
    assert_eq!(Language::Chinese_Hans.into(), "zh-hans");
    assert_eq!(Language::Undetermined.into(), "Unknown");
    assert_eq!(Language::Other("xx".to_string()).into(), "Unknown");
}

#[test]
fn a_language_name_reads_back_as_the_same_language() {
    for code in ["eng", "jpn", "deu", "fra", "ita", "spa", "pt-br", "zh-hant", "kor", "ukr", "heb", "msa"] {
        let lang = Language::from(code);
        let name = format!("{:?}", lang);
        let back = Language::from(lang.clone().into());
        assert_eq!(format!("{:?}", back), name, "code {}", code);
        let upper = lang.into().to_ascii_uppercase();
        assert_eq!(format!("{:?}", Language::from(upper.as_str())), name, "code {}", code);
    }
}

#[test]
fn failure_messages() {
    assert_eq!(FFprobeFailure::FFprobeExecutableNotFound.message(), "Failed to locate `ffprobe` executable");
    assert_eq!(FFprobeFailure::FailedToSpawnProcess.message(), "Failed to spawn sub-process");
    assert_eq!(FFprobeFailure::InputDoesNotExist.message(), "`ffprobe` input does not exist");
    assert_eq!(FFprobeFailure::InputIsNotAFile.message(), "`ffprobe` input is not a file");
    assert_eq!(FFprobeFailure::NoJsonOutput.message(), "No JSON output from `ffprobe` command (internal error)");
    let err = serde_json::from_str::<u32>("x").unwrap_err();
    assert_eq!(
        FFprobeFailure::FailedToParseJson(err).message(),
        "Failed to parse JSON output from `ffprobe` (internal error)"
    );
}

#[test]
fn input_checks() {
    assert!(matches!(FFprobeMediaInfo::check_input(false, false), Err(FFprobeFailure::InputDoesNotExist)));
    assert!(matches!(FFprobeMediaInfo::check_input(true, false), Err(FFprobeFailure::InputIsNotAFile)));
    assert!(FFprobeMediaInfo::check_input(true, true).is_ok());
}

#[test]
fn probe_output() {
    assert!(matches!(FFprobeMediaInfo::from_json_output("", Ok(info(vec![]))), Err(FFprobeFailure::NoJsonOutput)));
    let err = serde_json::from_str::<u32>("x").unwrap_err();
    assert!(matches!(FFprobeMediaInfo::from_json_output("{", Err(err)), Err(FFprobeFailure::FailedToParseJson(_))));
    let ok = FFprobeMediaInfo::from_json_output("{}", Ok(info(vec![video(1, 2)]))).unwrap();
    assert_eq!(ok.streams.len(), 1);
}

#[test]
fn summary_rows() {
    let i = info(vec![
        audio(Some(Language::English)),
        video(1920, 1080),
        FFprobeStream::Subtitle(SubtitleStream { codec_name: "srt".to_string(), language: Some(Language::German) }),
        audio(None),
        video(640, 480),
        audio(Some(Language::Japanese)),
        audio(Some(Language::French)),
        audio(Some(Language::German)),
        audio(Some(Language::Korean)),
        audio(Some(Language::Thai)),
        FFprobeStream::Data(DataStream {}),
        FFprobeStream::Other("attachment".to_string()),
    ]);
    assert_eq!(i.resolution_row(), vec!["Resolution".to_string(), "1920x1080".to_string()]);
    assert_eq!(i.language_row(), vec!["Languages: ", "en", "ja", "fr", "de", "ko"]);
    let empty = info(vec![]);
    assert_eq!(empty.resolution_row(), vec!["Resolution".to_string()]);
    assert_eq!(empty.language_row(), vec!["Languages: "]);
}

#[test]
fn flux_parts() {
    let _d = Dispatch::new();
    let _s = UnspecificStore::new();
}

#[test]
fn stream_kind_reads_each_codec_type() {
    assert!(matches!(stream_kind("video"), Some(StreamKind::Video)));
    assert!(matches!(stream_kind("audio"), Some(StreamKind::Audio)));
    assert!(matches!(stream_kind("subtitle"), Some(StreamKind::Subtitle)));
    assert!(matches!(stream_kind("data"), Some(StreamKind::Data)));
    assert!(stream_kind("attachment").is_none());
    assert!(stream_kind("Video").is_none());
}

#[test]
fn unknown_codec_message_names_the_type() {
    assert_eq!(unknown_codec_message("attachment"), "unknown codec: attachment");
}

#[test]
fn bit_rate_falls_back_to_bps_tag() {
    let own = size::Size::from_bytes(800);
    let tag = size::Size::from_bytes(500);
    assert_eq!(bit_rate_or_bps(Some(own), Some(tag)), Some(size::Size::from_bytes(800)));
    assert_eq!(bit_rate_or_bps(None, Some(tag)), Some(size::Size::from_bytes(500)));
    assert_eq!(bit_rate_or_bps(None, None), None);
}

#[test]
fn prober_tracks_each_item_probe() {
    let zodiac = MediaItem::Movie(Arc::new(Movie::new(Some("/in/movies/Zodiac (2007).mkv".to_string())).unwrap()));
    let alien = MediaItem::Movie(Arc::new(Movie::new(Some("/in/movies/Alien (1979).mkv".to_string())).unwrap()));
    let mut prober = Prober::new();
    assert!(prober.get(&zodiac).is_none());
    let target = prober.dispatch(zodiac.clone());
    assert_eq!(target, "/in/movies/Zodiac (2007).mkv");
    assert!(matches!(prober.get(&zodiac), Some(ProbeResult::InProgress)));
    prober.record(zodiac.clone(), Ok(info(vec![video(1920, 1080)])));
    assert!(matches!(prober.get(&zodiac), Some(ProbeResult::Success(i)) if i.streams.len() == 1));
    prober.dispatch(alien.clone());
    prober.record(alien.clone(), Err(FFprobeFailure::NoJsonOutput));
    assert!(matches!(prober.get(&alien), Some(ProbeResult::Failure(FFprobeFailure::NoJsonOutput))));
    assert!(matches!(prober.get(&zodiac), Some(ProbeResult::Success(_))));
}
