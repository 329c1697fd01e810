use std::path::{Path, PathBuf};

use transcode_rs::config::{Config, FileAction, Hwaccel};
use transcode_rs::setup::{ConfigDir, Setup, SetupCause, SetupReply, SetupRequest, SetupStep};

fn config() -> Config {
    Config {
        verbose: 3,
        dry_run: true,
        hwaccel: Hwaccel::Qsv,
        min_crf: 12,
        non_video_action: FileAction::Move,
        non_video_dir: None,
        remove_symlinks: true,
        remove_empty_dirs: false,
        broken_video_action: FileAction::Delete,
        broken_video_dir: Some(PathBuf::from("broken")),
        failed_transcode_action: FileAction::Skip,
        failed_transcode_dir: None,
        transcoded_video_action: FileAction::Move,
        transcoded_video_dir: Some(PathBuf::from("done")),
        working_dir: PathBuf::from("work"),
        video_dir: PathBuf::from("~/videos"),
    }
}

/// Answers a request as a file system would in which only `work` exists.
fn answer(request: SetupRequest<'_>, log: &mut Vec<String>) -> SetupReply {
    log.push(format!("{request:?}"));
    match request {
        SetupRequest::Expand(path) => {
            let path = path.to_str().unwrap().replace('~', "/home");
            SetupReply::Expanded(Some(PathBuf::from(path)))
        }
        SetupRequest::Exists(path) => SetupReply::Exists(path == Path::new("work")),
        SetupRequest::CreateDirAll(_) => SetupReply::Created(true),
        SetupRequest::Canonicalize(path) => {
            SetupReply::Resolved(Some(Path::new("/canon").join(path.strip_prefix("/").unwrap_or(path))))
        }
    }
}

#[test]
fn every_configured_dir_is_set_up_in_order() {
    let mut setup = Setup::start(config());
    let mut log = Vec::new();
    loop {
        let reply = match setup.request() {
            Some(request) => answer(request, &mut log),
            None => break,
        };
        setup = setup.advance(reply);
    }
    assert!(matches!(setup.step, SetupStep::Finished));
    assert_eq!(
        log,
        [
            "Expand(\"broken\")",
            "Exists(\"broken\")",
            "CreateDirAll(\"broken\")",
            "Canonicalize(\"broken\")",
            "Expand(\"done\")",
            "Exists(\"done\")",
            "CreateDirAll(\"done\")",
            "Canonicalize(\"done\")",
            "Expand(\"work\")",
            "Exists(\"work\")",
            "Canonicalize(\"work\")",
            "Expand(\"~/videos\")",
            "Exists(\"/home/videos\")",
            "CreateDirAll(\"/home/videos\")",
            "Canonicalize(\"/home/videos\")",
        ]
    );
    let config = setup.config;
    assert_eq!(config.non_video_dir, None);
    assert_eq!(config.broken_video_dir, Some(PathBuf::from("/canon/broken")));
    assert_eq!(config.failed_transcode_dir, None);
    assert_eq!(config.transcoded_video_dir, Some(PathBuf::from("/canon/done")));
    assert_eq!(config.working_dir, PathBuf::from("/canon/work"));
    assert_eq!(config.video_dir, PathBuf::from("/canon/home/videos"));
    assert_eq!(config.verbose, 3);
    assert!(config.dry_run);
    assert_eq!(config.min_crf, 12);
    assert_eq!(config.non_video_action, FileAction::Move);
    assert_eq!(config.transcoded_video_action, FileAction::Move);
}

#[test]
fn failed_setup_goes_no_further() {
    let failed = |setup: &Setup, cause: SetupCause| {
        assert!(setup.request().is_none());
        match setup.step {
            SetupStep::Failed(dir, found) => {
                assert_eq!(dir, ConfigDir::BrokenVideo);
                assert_eq!(found, cause);
            }
            ref other => panic!("{other:?}"),
        }
        assert_eq!(setup.config.broken_video_dir, Some(PathBuf::from("broken")));
        assert_eq!(setup.config.working_dir, PathBuf::from("work"));
    };
    let expanding = || Setup::start(config());
    failed(
        &expanding().advance(SetupReply::Expanded(None)),
        SetupCause::ExpandFailed,
    );
    let checking = || expanding().advance(SetupReply::Expanded(Some(PathBuf::from("broken"))));
    failed(
        &checking()
            .advance(SetupReply::Exists(false))
            .advance(SetupReply::Created(false)),
        SetupCause::CreateFailed,
    );
    failed(
        &checking()
            .advance(SetupReply::Exists(true))
            .advance(SetupReply::Resolved(None)),
        SetupCause::ResolveFailed,
    );
}

#[test]
fn setup_of_missing_dirs_takes_four_replies_each() {
    let mut config = config();
    config.non_video_dir = Some(PathBuf::from("other"));
    config.failed_transcode_dir = Some(PathBuf::from("failed"));
    config.working_dir = PathBuf::from("/scratch");
    let mut setup = Setup::start(config);
    let mut log = Vec::new();
    loop {
        let reply = match setup.request() {
            Some(request) => answer(request, &mut log),
            None => break,
        };
        setup = setup.advance(reply);
    }
    assert!(matches!(setup.step, SetupStep::Finished));
    assert_eq!(log.len(), 24);
    assert_eq!(log[0], "Expand(\"other\")");
}
