use std::collections::hash_map::DefaultHasher;
use std::hash::{Hash, Hasher};
use std::path::{Path, PathBuf};

use transcode_rs::video::{
    AnalyzeError, AudioCodec, ProbeReport, ProbedStream, VideoCodec, VideoFile,
};

fn stream(codec_type: &str, codec_name: Option<&str>, nb_frames: Option<&str>) -> ProbedStream {
    ProbedStream {
        codec_type: Some(codec_type.to_string()),
        codec_name: codec_name.map(|name| name.to_string()),
        nb_frames: nb_frames.map(|text| text.to_string()),
    }
}

fn probe(streams: Vec<ProbedStream>, size: &str) -> Result<VideoFile<PathBuf>, AnalyzeError> {
    let report = ProbeReport {
        streams,
        size: size.to_string(),
    };
    VideoFile::new(PathBuf::from("/v/a.mp4"), &report)
}

#[test]
fn probe_is_read() {
    let video = probe(
        vec![
            stream("subtitle", None, Some("7")),
            stream("audio", Some("aac"), None),
            stream("video", Some("hevc"), Some("250")),
            stream("video", Some("av1"), Some("9")),
            stream("audio", Some("mp3"), None),
        ],
        "1234",
    )
    .unwrap();
    assert_eq!(video.path(), Path::new("/v/a.mp4"));
    assert_eq!(video.video_codec, VideoCodec::Hevc);
    assert_eq!(video.audio_codec, Some(AudioCodec::Aac));
    assert_eq!(video.nb_frames, Some(250));
    assert_eq!(video.size, 1234);
}

#[test]
fn codecs_are_told_apart() {
    let codec = |name: &str| {
        probe(vec![stream("video", Some(name), None)], "1")
            .unwrap()
            .video_codec
    };
    assert_eq!(codec("av1"), VideoCodec::AV1);
    assert_eq!(codec("hevc"), VideoCodec::Hevc);
    assert_eq!(codec("h264"), VideoCodec::Other);
    assert_eq!(codec("AV1"), VideoCodec::Other);
    let audio = |name: Option<&str>| {
        probe(
            vec![stream("video", Some("h264"), None), stream("audio", name, None)],
            "1",
        )
        .unwrap()
        .audio_codec
    };
    assert_eq!(audio(Some("aac")), Some(AudioCodec::Aac));
    assert_eq!(audio(Some("opus")), Some(AudioCodec::Other));
    assert_eq!(audio(None), None);
}

#[test]
fn unusable_probes_are_refused() {
    assert_eq!(probe(vec![], "1").unwrap_err(), AnalyzeError::NoVideoStream);
    assert_eq!(
        probe(vec![stream("audio", Some("aac"), None)], "1").unwrap_err(),
        AnalyzeError::NoVideoStream
    );
    assert_eq!(
        probe(vec![stream("video", None, None)], "x").unwrap_err(),
        AnalyzeError::NoCodecName
    );
    assert_eq!(
        probe(vec![stream("video", Some("h264"), None)], "x").unwrap_err(),
        AnalyzeError::BadSize
    );
}

#[test]
fn numbers_are_read_as_decimal() {
    let size = |text: &str| probe(vec![stream("video", Some("h264"), None)], text).map(|v| v.size);
    assert_eq!(size("0"), Ok(0));
    assert_eq!(size("+12"), Ok(12));
    assert_eq!(size("0000000000000000000000000012"), Ok(12));
    assert_eq!(size("18446744073709551615"), Ok(u64::MAX));
    for text in [
        "",
        "+",
        "-1",
        "++1",
        " 1",
        "1 ",
        "1_0",
        "1.0",
        "0x10",
        "\u{661}",
        "18446744073709551616",
        "99999999999999999999x",
    ] {
        assert_eq!(size(text), Err(AnalyzeError::BadSize), "{text:?}");
        assert!(text.parse::<u64>().is_err());
    }
}

#[test]
fn unreadable_frame_count_is_dropped() {
    let frames = |text: Option<&str>| {
        probe(vec![stream("video", Some("h264"), text)], "1")
            .unwrap()
            .nb_frames
    };
    assert_eq!(frames(Some("250")), Some(250));
    assert_eq!(frames(Some("N/A")), None);
    assert_eq!(frames(None), None);
}

fn video(path: &str, size: u64) -> VideoFile<PathBuf> {
    VideoFile {
        path: PathBuf::from(path),
        video_codec: VideoCodec::Other,
        audio_codec: None,
        nb_frames: Some(3),
        size,
    }
}

fn digest_of(video: &VideoFile<PathBuf>) -> u64 {
    let mut hasher = DefaultHasher::new();
    video.hash(&mut hasher);
    hasher.finish()
}

#[test]
fn videos_are_equal_by_path_and_content() {
    assert!(video("/v/a.mp4", 1) == video("/v//a.mp4", 1));
    assert_eq!(digest_of(&video("/v/a.mp4", 1)), digest_of(&video("/v//a.mp4", 1)));
    assert!(video("/v/a.mp4", 1) != video("/v/b.mp4", 1));
    assert!(video("/v/a.mp4", 1) != video("/v/a.mp4", 2));
    assert_ne!(digest_of(&video("/v/a.mp4", 1)), digest_of(&video("/v/a.mp4", 2)));
}

#[test]
fn every_field_is_hashed_in_order() {
    for audio_codec in [None, Some(AudioCodec::Aac), Some(AudioCodec::Other)] {
        for nb_frames in [None, Some(0), Some(24)] {
            let mut video = video("/v/a.mp4", 7);
            video.audio_codec = audio_codec;
            video.nb_frames = nb_frames;
            let mut hasher = DefaultHasher::new();
            Path::new("/v/a.mp4").hash(&mut hasher);
            VideoCodec::Other.hash(&mut hasher);
            audio_codec.hash(&mut hasher);
            nb_frames.hash(&mut hasher);
            7u64.hash(&mut hasher);
            assert_eq!(digest_of(&video), hasher.finish());
        }
    }
}
