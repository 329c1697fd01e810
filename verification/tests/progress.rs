use std::path::PathBuf;

use transcode_rs::progress::{
    readable_elapsed, readable_savings, readable_size, transcode_progress, Completion,
    EncoderEvent, ProgressUpdate, Severity,
};
use transcode_rs::video::{VideoCodec, VideoFile};

fn video(size: u64) -> VideoFile<PathBuf> {
    VideoFile {
        path: PathBuf::from("/v/a.avi"),
        video_codec: VideoCodec::Other,
        audio_codec: None,
        nb_frames: None,
        size,
    }
}

#[test]
fn sizes_are_readable() {
    assert_eq!(readable_size(0), "0 B");
    assert_eq!(readable_size(1023), "1023 B");
    assert_eq!(readable_size(1024), "1.0 kiB");
    assert_eq!(readable_size(1536), "1.5 kiB");
    assert_eq!(readable_size(1100), "1.1 kiB");
    assert_eq!(readable_size(2047), "2.0 kiB");
    assert_eq!(readable_size(900_000), "878.9 kiB");
    assert_eq!(readable_size(1_100_000), "1.0 MiB");
    assert_eq!(readable_size(3 * 1024 * 1024), "3.0 MiB");
    assert_eq!(readable_size(5_000_000_000), "4.7 GiB");
    assert_eq!(readable_size(u64::MAX), "16.0 EiB");
}

#[test]
fn savings_are_the_difference() {
    assert_eq!(readable_savings(&video(4096), &video(1024)), "3.0 kiB");
    assert_eq!(readable_savings(&video(100), &video(100)), "0 B");
}

#[test]
fn elapsed_time_is_readable() {
    assert_eq!(readable_elapsed(0), "0s");
    assert_eq!(readable_elapsed(9420), "2h 37m");
    assert_eq!(readable_elapsed(86400 * 2 + 5), "2days 5s");
    assert_eq!(readable_elapsed(59), "59s");
    assert_eq!(readable_elapsed(3600), "1h");
    assert_eq!(
        readable_elapsed(31_557_600 + 2 * 2_630_016 + 86_400 + 3_661),
        "1year 2months 1day 1h 1m 1s"
    );
    assert_eq!(readable_elapsed(2 * 31_557_600 + 2_630_016), "2years 1month");
}

fn log(severity: Severity) -> ProgressUpdate {
    transcode_progress(30, None, EncoderEvent::Log(severity, "text".to_string()))
}

#[test]
fn only_warnings_and_errors_are_told() {
    assert!(matches!(log(Severity::Error), ProgressUpdate::Error(text) if text == "text"));
    assert!(matches!(log(Severity::Fatal), ProgressUpdate::Error(text) if text == "text"));
    assert!(matches!(log(Severity::Warning), ProgressUpdate::Warning(text) if text == "text"));
    assert!(matches!(log(Severity::Info), ProgressUpdate::Nothing));
    assert!(matches!(log(Severity::Unknown), ProgressUpdate::Nothing));
    let other = transcode_progress(30, None, EncoderEvent::Other);
    assert!(matches!(other, ProgressUpdate::Nothing));
}

#[test]
fn progress_is_shown() {
    let event = || EncoderEvent::Progress { frame: 50, size_kb: 2048 };
    match transcode_progress(31, Some(200), event()) {
        ProgressUpdate::Show(line) => {
            assert_eq!(line.crf, 31);
            assert_eq!(line.frame, 50);
            assert_eq!(line.progress, Completion::Frames { frame: 50, nb_frames: 200 });
            assert_eq!(line.size, readable_size(2_048_000));
            assert_eq!(line.size, "2.0 MiB");
        }
        other => panic!("{other:?}"),
    }
    match transcode_progress(31, None, event()) {
        ProgressUpdate::Show(line) => assert_eq!(line.progress, Completion::Unknown),
        other => panic!("{other:?}"),
    }
    let largest = EncoderEvent::Progress { frame: u32::MAX, size_kb: u32::MAX };
    assert!(matches!(transcode_progress(31, None, largest), ProgressUpdate::Show(_)));
}
