use std::path::{Path, PathBuf};

use transcode_rs::cleanup::{DirEnd, DirRemoval, SymlinkEnd, SymlinkRemoval};
use transcode_rs::config::{Config, FileAction, FileKind, Hwaccel, Verbosity};
use transcode_rs::disposal::{Disposal, DisposalEnd, DisposalError};
use transcode_rs::finalize::{Finalization, FinalizeEnd, FinalizeError};
use transcode_rs::paths::SubtreeError;
use transcode_rs::requests::{CopySource, Reply, Request};
use transcode_rs::transcode::{attempt_command, target_dir};
use transcode_rs::video::{AnalyzeError, VideoCodec, VideoFile};

fn config() -> Config {
    Config {
        verbose: 0,
        dry_run: false,
        hwaccel: Hwaccel::Disabled,
        min_crf: 30,
        non_video_action: FileAction::Move,
        non_video_dir: Some(PathBuf::from("/nonvideo")),
        remove_symlinks: true,
        remove_empty_dirs: true,
        broken_video_action: FileAction::Delete,
        broken_video_dir: None,
        failed_transcode_action: FileAction::Skip,
        failed_transcode_dir: None,
        transcoded_video_action: FileAction::Delete,
        transcoded_video_dir: Some(PathBuf::from("/done")),
        working_dir: PathBuf::from("/tmp/work"),
        video_dir: PathBuf::from("/videos"),
    }
}

fn disposal_end(disposal: &Disposal) -> DisposalEnd {
    assert!(disposal.request().is_none());
    match disposal {
        Disposal::Finished(end) => *end,
        other => panic!("{other:?}"),
    }
}

fn finalize_end(finalization: &Finalization) -> FinalizeEnd {
    assert!(finalization.request().is_none());
    match finalization {
        Finalization::Finished(end) => *end,
        other => panic!("{other:?}"),
    }
}

#[test]
fn verbosity_is_capped() {
    let mut config = config();
    assert_eq!(config.verbosity(), Verbosity::Info);
    config.verbose = 1;
    assert_eq!(config.verbosity(), Verbosity::Debug);
    config.verbose = 2;
    assert_eq!(config.verbosity(), Verbosity::Trace);
    config.verbose = 255;
    assert_eq!(config.verbosity(), Verbosity::Trace);
}

#[test]
fn nonvideo_file_is_moved() {
    let config = config();
    let kind = FileKind::NonVideo;
    let disposal = Disposal::start();
    assert!(matches!(disposal.request(), Some(Request::IsFile)));
    let disposal = disposal.advance(&config, kind, Reply::Answer(true));
    assert!(matches!(disposal.request(), Some(Request::Canonicalize)));
    let source = PathBuf::from("/videos/a/readme.txt");
    let disposal = disposal.advance(&config, kind, Reply::Located(source));
    match disposal.request() {
        Some(Request::CreateDirAll(dir)) => assert_eq!(dir, Path::new("/nonvideo/a")),
        other => panic!("{other:?}"),
    }
    let disposal = disposal.advance(&config, kind, Reply::Completed);
    match disposal.request() {
        Some(Request::CopyTo(CopySource::File, file)) => {
            assert_eq!(file, Path::new("/nonvideo/a/readme.txt"))
        }
        other => panic!("{other:?}"),
    }
    let disposal = disposal.advance(&config, kind, Reply::Completed);
    assert!(matches!(disposal.request(), Some(Request::RemoveFile)));
    let disposal = disposal.advance(&config, kind, Reply::Completed);
    assert_eq!(disposal_end(&disposal), DisposalEnd::Moved);
}

#[test]
fn moved_file_survives_a_failed_copy() {
    let config = config();
    let kind = FileKind::NonVideo;
    let located = || {
        Disposal::start()
            .advance(&config, kind, Reply::Answer(true))
            .advance(&config, kind, Reply::Located(PathBuf::from("/videos/a.txt")))
    };
    let failed = |error: DisposalError| DisposalEnd::Failed(error);
    let prepared = located().advance(&config, kind, Reply::Failed);
    assert_eq!(disposal_end(&prepared), failed(DisposalError::CreateDirFailed));
    let copied = located()
        .advance(&config, kind, Reply::Completed)
        .advance(&config, kind, Reply::Failed);
    assert_eq!(disposal_end(&copied), failed(DisposalError::CopyFailed));
    let removed = located()
        .advance(&config, kind, Reply::Completed)
        .advance(&config, kind, Reply::Completed)
        .advance(&config, kind, Reply::Failed);
    assert_eq!(disposal_end(&removed), failed(DisposalError::RemoveFailed));
}

#[test]
fn file_without_a_place_is_not_moved() {
    let mut config = config();
    let kind = FileKind::NonVideo;
    let locating = Disposal::start().advance(&config, kind, Reply::Answer(true));
    let outside = locating.advance(&config, kind, Reply::Located(PathBuf::from("/other/a.txt")));
    assert_eq!(
        disposal_end(&outside),
        DisposalEnd::Failed(DisposalError::NoPlace(SubtreeError::OutsideRoot))
    );
    let locating = Disposal::start().advance(&config, kind, Reply::Answer(true));
    assert_eq!(
        disposal_end(&locating.advance(&config, kind, Reply::Failed)),
        DisposalEnd::Failed(DisposalError::LocateFailed)
    );
    config.non_video_dir = None;
    let homeless = Disposal::start().advance(&config, kind, Reply::Answer(true));
    assert_eq!(
        disposal_end(&homeless),
        DisposalEnd::Failed(DisposalError::NoTargetDir)
    );
}

#[test]
fn broken_video_is_deleted() {
    let config = config();
    let kind = FileKind::BrokenVideo;
    let disposal = Disposal::start().advance(&config, kind, Reply::Answer(true));
    assert!(matches!(disposal.request(), Some(Request::RemoveFile)));
    let disposal = disposal.advance(&config, kind, Reply::Completed);
    assert_eq!(disposal_end(&disposal), DisposalEnd::Deleted);
    let disposal = Disposal::start().advance(&config, kind, Reply::Answer(true));
    assert_eq!(
        disposal_end(&disposal.advance(&config, kind, Reply::Failed)),
        DisposalEnd::Failed(DisposalError::DeleteFailed)
    );
}

#[test]
fn failed_transcode_is_skipped() {
    let config = config();
    let kind = FileKind::FailedTranscode;
    let disposal = Disposal::start().advance(&config, kind, Reply::Answer(true));
    assert_eq!(disposal_end(&disposal), DisposalEnd::Skipped);
    let disposal = Disposal::start().advance(&config, kind, Reply::Answer(false));
    assert_eq!(
        disposal_end(&disposal),
        DisposalEnd::Failed(DisposalError::NotAFile)
    );
}

#[test]
fn dry_run_disposes_of_nothing() {
    let mut config = config();
    config.dry_run = true;
    for (kind, end) in [
        (FileKind::NonVideo, DisposalEnd::Moved),
        (FileKind::BrokenVideo, DisposalEnd::Deleted),
        (FileKind::FailedTranscode, DisposalEnd::Skipped),
    ] {
        let disposal = Disposal::start().advance(&config, kind, Reply::Answer(true));
        assert_eq!(disposal_end(&disposal), end);
    }
}

#[test]
fn each_kind_of_file_has_its_settings() {
    let mut config = config();
    config.broken_video_dir = Some(PathBuf::from("/broken"));
    config.failed_transcode_dir = Some(PathBuf::from("/failed"));
    assert_eq!(config.action_for(FileKind::NonVideo), FileAction::Move);
    assert_eq!(config.action_for(FileKind::BrokenVideo), FileAction::Delete);
    assert_eq!(config.action_for(FileKind::FailedTranscode), FileAction::Skip);
    let dir = |kind: FileKind| config.dir_for(kind).as_ref().unwrap();
    assert_eq!(dir(FileKind::NonVideo), Path::new("/nonvideo"));
    assert_eq!(dir(FileKind::BrokenVideo), Path::new("/broken"));
    assert_eq!(dir(FileKind::FailedTranscode), Path::new("/failed"));
}

#[test]
fn symlink_is_removed() {
    let config = config();
    let removal = SymlinkRemoval::start();
    assert!(matches!(removal.request(), Some(Request::IsSymlink)));
    let removal = removal.advance(&config, Reply::Answer(true));
    assert!(matches!(removal.request(), Some(Request::RemoveFile)));
    assert_eq!(
        removal.advance(&config, Reply::Completed),
        SymlinkRemoval::Finished(SymlinkEnd::Removed)
    );
    assert_eq!(
        removal.advance(&config, Reply::Failed),
        SymlinkRemoval::Finished(SymlinkEnd::RemoveFailed)
    );
}

#[test]
fn symlink_stays_unless_asked_for() {
    let mut config = config();
    let start = SymlinkRemoval::start();
    assert_eq!(
        start.advance(&config, Reply::Answer(false)),
        SymlinkRemoval::Finished(SymlinkEnd::NotASymlink)
    );
    config.dry_run = true;
    assert_eq!(
        start.advance(&config, Reply::Answer(true)),
        SymlinkRemoval::Finished(SymlinkEnd::Removed)
    );
    config.remove_symlinks = false;
    let skipped = start.advance(&config, Reply::Answer(true));
    assert_eq!(skipped, SymlinkRemoval::Finished(SymlinkEnd::Skipped));
    assert!(skipped.request().is_none());
}

#[test]
fn empty_dir_is_removed() {
    let config = config();
    let removal = DirRemoval::start();
    assert!(matches!(removal.request(), Some(Request::IsDir)));
    let removal = removal.advance(&config, Reply::Answer(true));
    assert!(matches!(removal.request(), Some(Request::IsEmptyDir)));
    let removal = removal.advance(&config, Reply::Answer(true));
    assert!(matches!(removal.request(), Some(Request::RemoveDir)));
    assert_eq!(
        removal.advance(&config, Reply::Completed),
        DirRemoval::Finished(DirEnd::Removed)
    );
    assert_eq!(
        removal.advance(&config, Reply::Failed),
        DirRemoval::Finished(DirEnd::RemoveFailed)
    );
}

#[test]
fn dir_stays_unless_asked_for_and_empty() {
    let mut config = config();
    let start = DirRemoval::start();
    assert_eq!(
        start.advance(&config, Reply::Answer(false)),
        DirRemoval::Finished(DirEnd::NotADir)
    );
    let reading = start.advance(&config, Reply::Answer(true));
    assert_eq!(
        reading.advance(&config, Reply::Answer(false)),
        DirRemoval::Finished(DirEnd::NotEmpty)
    );
    assert_eq!(
        reading.advance(&config, Reply::Failed),
        DirRemoval::Finished(DirEnd::ReadFailed)
    );
    config.dry_run = true;
    assert_eq!(
        reading.advance(&config, Reply::Answer(true)),
        DirRemoval::Finished(DirEnd::Removed)
    );
    config.remove_empty_dirs = false;
    let skipped = start.advance(&config, Reply::Answer(true));
    assert_eq!(skipped, DirRemoval::Finished(DirEnd::Skipped));
    assert!(skipped.request().is_none());
}

fn video(path: &str, video_codec: VideoCodec) -> VideoFile<PathBuf> {
    VideoFile {
        path: PathBuf::from(path),
        video_codec,
        audio_codec: None,
        nb_frames: None,
        size: 100,
    }
}

fn transcode() -> Result<VideoFile<PathBuf>, AnalyzeError> {
    Ok(video("/tmp/work/t", VideoCodec::AV1))
}

#[test]
fn transcode_clobbers_its_original() {
    let config = config();
    let original = video("/videos/a.avi", VideoCodec::Other);
    let clobbering = || Finalization::start(&config, &original, &transcode());
    match clobbering().request() {
        Some(Request::CopyTo(CopySource::Transcode, file)) => {
            assert_eq!(file, Path::new("/videos/a.mkv"))
        }
        other => panic!("{other:?}"),
    }
    let removing = || clobbering().advance(&config, &original, Reply::Completed);
    assert!(matches!(removing().request(), Some(Request::RemoveFile)));
    assert_eq!(
        finalize_end(&removing().advance(&config, &original, Reply::Completed)),
        FinalizeEnd::Clobbered
    );
    assert_eq!(
        finalize_end(&removing().advance(&config, &original, Reply::Failed)),
        FinalizeEnd::Failed(FinalizeError::RemoveFailed)
    );
    assert_eq!(
        finalize_end(&clobbering().advance(&config, &original, Reply::Failed)),
        FinalizeEnd::Failed(FinalizeError::CopyFailed)
    );
}

#[test]
fn transcode_that_overwrites_its_original_is_kept() {
    let config = config();
    let original = video("/videos//a.mkv", VideoCodec::Other);
    let clobbering = Finalization::start(&config, &original, &transcode());
    let done = clobbering.advance(&config, &original, Reply::Completed);
    assert_eq!(finalize_end(&done), FinalizeEnd::Clobbered);
}

#[test]
fn transcode_is_moved_beside() {
    let mut config = config();
    config.transcoded_video_action = FileAction::Move;
    let original = video("/videos/x/a.avi", VideoCodec::Other);
    let locating = Finalization::start(&config, &original, &transcode());
    assert!(matches!(locating.request(), Some(Request::Canonicalize)));
    let source = PathBuf::from("/videos/x/a.avi");
    let preparing = locating.advance(&config, &original, Reply::Located(source));
    match preparing.request() {
        Some(Request::CreateDirAll(dir)) => assert_eq!(dir, Path::new("/done/x")),
        other => panic!("{other:?}"),
    }
    let copying = preparing.advance(&config, &original, Reply::Completed);
    match copying.request() {
        Some(Request::CopyTo(CopySource::Transcode, file)) => {
            assert_eq!(file, Path::new("/done/x/a.avi"))
        }
        other => panic!("{other:?}"),
    }
    let done = copying.advance(&config, &original, Reply::Completed);
    assert_eq!(finalize_end(&done), FinalizeEnd::Placed);
}

#[test]
fn transcode_without_a_place_is_not_moved() {
    let mut config = config();
    config.transcoded_video_action = FileAction::Move;
    let original = video("/videos/a.avi", VideoCodec::Other);
    let locating = || Finalization::start(&config, &original, &transcode());
    let located = |path: &str| {
        locating().advance(&config, &original, Reply::Located(PathBuf::from(path)))
    };
    assert_eq!(
        finalize_end(&locating().advance(&config, &original, Reply::Failed)),
        FinalizeEnd::Failed(FinalizeError::LocateFailed)
    );
    assert_eq!(
        finalize_end(&located("/elsewhere/a.avi")),
        FinalizeEnd::Failed(FinalizeError::NoPlace(SubtreeError::OutsideRoot))
    );
    assert_eq!(
        finalize_end(&located("/videos/a.avi").advance(&config, &original, Reply::Failed)),
        FinalizeEnd::Failed(FinalizeError::CreateDirFailed)
    );
    assert_eq!(
        finalize_end(
            &located("/videos/a.avi")
                .advance(&config, &original, Reply::Completed)
                .advance(&config, &original, Reply::Failed)
        ),
        FinalizeEnd::Failed(FinalizeError::CopyFailed)
    );
    let mut homeless = self::config();
    homeless.transcoded_video_action = FileAction::Move;
    homeless.transcoded_video_dir = None;
    assert_eq!(
        finalize_end(&Finalization::start(&homeless, &original, &transcode())),
        FinalizeEnd::Failed(FinalizeError::NoTargetDir)
    );
}

#[test]
fn unusable_transcode_changes_nothing() {
    let config = config();
    let original = video("/videos/a.avi", VideoCodec::Other);
    let broken: Result<VideoFile<PathBuf>, AnalyzeError> = Err(AnalyzeError::ProbeFailed);
    assert_eq!(
        finalize_end(&Finalization::start(&config, &original, &broken)),
        FinalizeEnd::Failed(FinalizeError::AnalyzeFailed(AnalyzeError::ProbeFailed))
    );
    let hevc: Result<_, AnalyzeError> = Ok(video("/tmp/work/t", VideoCodec::Hevc));
    assert_eq!(
        finalize_end(&Finalization::start(&config, &original, &hevc)),
        FinalizeEnd::Failed(FinalizeError::NotAv1(VideoCodec::Hevc))
    );
}

#[test]
fn dry_run_places_no_transcode() {
    let mut config = config();
    config.dry_run = true;
    let original = video("/videos/a.avi", VideoCodec::Other);
    for (action, end) in [
        (FileAction::Delete, FinalizeEnd::Clobbered),
        (FileAction::Move, FinalizeEnd::Placed),
        (FileAction::Skip, FinalizeEnd::Discarded),
    ] {
        config.transcoded_video_action = action;
        let done = Finalization::start(&config, &original, &transcode());
        assert_eq!(finalize_end(&done), end);
    }
}

#[test]
fn attempts_follow_the_settings() {
    let mut config = config();
    config.hwaccel = Hwaccel::Vaapi;
    assert_eq!(target_dir(&config), Path::new("/tmp/work"));
    let original = video("/videos/a.avi", VideoCodec::Hevc);
    let dst = Path::new("/tmp/work/t");
    let mut command = attempt_command(&original, &config, "/opt/ffmpeg", dst, 33);
    assert_eq!(command.as_inner().get_program(), "/opt/ffmpeg");
    let args: Vec<&str> = command
        .get_args()
        .map(|arg| arg.to_str().unwrap())
        .collect();
    assert_eq!(
        args,
        [
            "-loglevel",
            "level+info",
            "-y",
            "-threads",
            "0",
            "-hwaccel",
            "vaapi",
            "-i",
            "/videos/a.avi",
            "-f",
            "matroska",
            "-c:s",
            "copy",
            "-c:v",
            "libsvtav1",
            "-preset",
            "5",
            "-crf",
            "33",
            "-sc_detection",
            "-la_depth",
            "120",
            "-svtav1-params",
            "tune=0:film-grain=8",
            "-c:a",
            "copy",
            "/tmp/work/t",
        ]
    );
}
