use std::path::{Path, PathBuf};

use transcode_rs::config::Hwaccel;
use transcode_rs::video::{AudioCodec, VideoCodec, VideoFile};

fn args(
    video_codec: VideoCodec,
    audio_codec: Option<AudioCodec>,
    crf: u8,
    hwaccel: Hwaccel,
) -> Vec<String> {
    let video = VideoFile {
        path: PathBuf::from("/v/in.avi"),
        video_codec,
        audio_codec,
        nb_frames: None,
        size: 0,
    };
    let mut command = video.transcode_command(
        "/opt/ffmpeg",
        Path::new("/tmp/out"),
        VideoCodec::AV1,
        AudioCodec::Aac,
        crf,
        hwaccel,
    );
    assert_eq!(command.as_inner().get_program(), "/opt/ffmpeg");
    command
        .get_args()
        .map(|arg| arg.to_str().unwrap().to_string())
        .collect()
}

#[test]
fn everything_is_encoded() {
    assert_eq!(
        args(VideoCodec::Other, Some(AudioCodec::Other), 30, Hwaccel::Disabled),
        [
            "-loglevel",
            "level+info",
            "-y",
            "-threads",
            "0",
            "-hwaccel",
            "none",
            "-i",
            "/v/in.avi",
            "-f",
            "matroska",
            "-c:s",
            "copy",
            "-c:v",
            "libsvtav1",
            "-preset",
            "5",
            "-crf",
            "30",
            "-sc_detection",
            "-la_depth",
            "120",
            "-svtav1-params",
            "tune=0:film-grain=8",
            "-c:a",
            "libfdk_aac",
            "-vbr",
            "3",
            "/tmp/out",
        ]
    );
}

#[test]
fn streams_that_fit_are_copied() {
    let expected = [
        "-loglevel",
        "level+info",
        "-y",
        "-threads",
        "0",
        "-hwaccel",
        "vaapi",
        "-i",
        "/v/in.avi",
        "-f",
        "matroska",
        "-c:s",
        "copy",
        "-c:v",
        "copy",
        "-c:a",
        "copy",
        "/tmp/out",
    ];
    assert_eq!(
        args(VideoCodec::AV1, Some(AudioCodec::Aac), 30, Hwaccel::Vaapi),
        expected
    );
    assert_eq!(args(VideoCodec::AV1, None, 30, Hwaccel::Vaapi), expected);
}

#[test]
fn crf_is_written_in_decimal() {
    for crf in [0u8, 7, 9, 10, 63, 100, 255] {
        let args = args(VideoCodec::Hevc, None, crf, Hwaccel::Auto);
        let at = args.iter().position(|arg| arg == "-crf").unwrap();
        assert_eq!(args[at + 1], crf.to_string());
    }
}

#[test]
fn acceleration_methods_have_names() {
    assert_eq!(Hwaccel::Disabled.name(), "none");
    assert_eq!(Hwaccel::Auto.name(), "auto");
    assert_eq!(Hwaccel::Vdpau.name(), "vdpau");
    assert_eq!(Hwaccel::Dxva2.name(), "dxva2");
    assert_eq!(Hwaccel::D3d11va.name(), "d3d11va");
    assert_eq!(Hwaccel::Vaapi.name(), "vaapi");
    assert_eq!(Hwaccel::Qsv.name(), "qsv");
}
