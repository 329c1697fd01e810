use std::path::{Path, PathBuf};

use transcode_rs::pipeline::{after_analysis, after_scan, after_search, Stage};
use transcode_rs::scan::{has_video_extension, route_entry, EntryRoute};
use transcode_rs::transcode::{SearchEnd, SearchError};
use transcode_rs::video::{AnalyzeError, VideoCodec, VideoFile};

#[test]
fn every_video_extension_is_known() {
    for ext in [
        "avi", "flv", "m4v", "mkv", "mov", "mp4", "mpg", "ts", "vob", "webm", "wmv",
    ] {
        assert!(has_video_extension(&ext.as_bytes().to_vec()));
        assert!(has_video_extension(&ext.to_uppercase().into_bytes()));
    }
    for ext in ["", "mp3", "mp44", "mp", "m4v ", "txt", "\u{212a}kv"] {
        assert!(!has_video_extension(&ext.as_bytes().to_vec()));
    }
    assert!(has_video_extension(&b"WebM".to_vec()));
    assert!(!has_video_extension(&vec![0xff, 0xfe]));
}

#[test]
fn entries_are_told_apart() {
    let route = |path: &str| route_entry(Path::new(path), false, false);
    assert_eq!(route("/v/a.mkv"), EntryRoute::Video);
    assert_eq!(route("/v/a.MKV"), EntryRoute::Video);
    assert_eq!(route("/v/a.tar.Mp4"), EntryRoute::Video);
    assert_eq!(route("/v/a.mkv.part"), EntryRoute::NonVideo);
    assert_eq!(route("/v/a"), EntryRoute::NonVideo);
    assert_eq!(route("/v/a."), EntryRoute::NonVideo);
    assert_eq!(route("/v/.mkv"), EntryRoute::NonVideo);
    assert_eq!(route("/v/..mkv"), EntryRoute::Video);
    assert_eq!(route("/v.mkv/a"), EntryRoute::NonVideo);
    assert_eq!(route("/v/.."), EntryRoute::NonVideo);
    assert_eq!(route_entry(Path::new("/v/a.mkv"), true, false), EntryRoute::Symlink);
    assert_eq!(route_entry(Path::new("/v/a.mkv"), true, true), EntryRoute::Symlink);
    assert_eq!(route_entry(Path::new("/v/a.mkv"), false, true), EntryRoute::Dir);
}

#[test]
fn entries_go_to_their_stage() {
    assert_eq!(after_scan(EntryRoute::Symlink), Stage::HandleSymlinks);
    assert_eq!(after_scan(EntryRoute::Dir), Stage::HandleEmptyDirs);
    assert_eq!(after_scan(EntryRoute::NonVideo), Stage::HandleNonvideoFiles);
    assert_eq!(after_scan(EntryRoute::Video), Stage::AnalyzeVideoFiles);
}

fn analyzed(video_codec: VideoCodec) -> Result<VideoFile<PathBuf>, AnalyzeError> {
    Ok(VideoFile {
        path: PathBuf::from("/v/a.avi"),
        video_codec,
        audio_codec: None,
        nb_frames: None,
        size: 1,
    })
}

#[test]
fn av1_is_not_transcoded() {
    assert_eq!(after_analysis(&analyzed(VideoCodec::AV1)), Stage::Done);
    assert_eq!(
        after_analysis(&analyzed(VideoCodec::Hevc)),
        Stage::TranscodeVideoFiles
    );
    assert_eq!(
        after_analysis(&analyzed(VideoCodec::Other)),
        Stage::TranscodeVideoFiles
    );
    let broken: Result<VideoFile<PathBuf>, AnalyzeError> = Err(AnalyzeError::ProbeFailed);
    assert_eq!(after_analysis(&broken), Stage::HandleBrokenVideoFiles);
}

#[test]
fn only_unprobed_files_are_broken() {
    for error in [
        AnalyzeError::NoVideoStream,
        AnalyzeError::NoCodecName,
        AnalyzeError::BadSize,
    ] {
        let unusable: Result<VideoFile<PathBuf>, AnalyzeError> = Err(error);
        assert_eq!(after_analysis(&unusable), Stage::Done);
    }
}

#[test]
fn transcodes_are_finalized_or_failed() {
    assert_eq!(
        after_search(SearchEnd::Accepted { crf: 30 }),
        Stage::FinalizeTranscodes
    );
    assert_eq!(
        after_search(SearchEnd::Exhausted),
        Stage::HandleFailedTranscodes
    );
    assert_eq!(
        after_search(SearchEnd::Failed(SearchError::Quit)),
        Stage::HandleFailedTranscodes
    );
}
