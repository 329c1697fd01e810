//! How the tool is set up.

use std::path::PathBuf;

use vstd::prelude::*;

use crate::paths::{buf_parts, PathPart};

verus! {

/// What to do with a file.
#[derive(Clone, Copy, Debug, PartialEq, Eq, Structural)]
pub enum FileAction {
    /// Move the file
    Move,
    /// Delete the file
    Delete,
    /// Skip (ignore) the file
    Skip,
}

/// How video streams are decoded.
#[derive(Clone, Copy, Debug, PartialEq, Eq, Structural)]
pub enum Hwaccel {
    /// Do not use any hardware acceleration
    Disabled,
    /// Automatically select the hardware acceleration method
    Auto,
    /// Use VDPAU (Video Decode and Presentation API for Unix) hardware acceleration
    Vdpau,
    /// Use DXVA2 (DirectX Video Acceleration) hardware acceleration
    Dxva2,
    /// Use D3D11VA (DirectX Video Acceleration) hardware acceleration
    D3d11va,
    /// Use VAAPI (Video Acceleration API) hardware acceleration
    Vaapi,
    /// Use the Intel QuickSync Video acceleration for video transcoding
    Qsv,
}

impl Hwaccel {
    /// What the encoder calls the method.
    pub open spec fn label(self) -> Seq<char> {
        match self {
            Hwaccel::Disabled => "none"@,
            Hwaccel::Auto => "auto"@,
            Hwaccel::Vdpau => "vdpau"@,
            Hwaccel::Dxva2 => "dxva2"@,
            Hwaccel::D3d11va => "d3d11va"@,
            Hwaccel::Vaapi => "vaapi"@,
            Hwaccel::Qsv => "qsv"@,
        }
    }

    /// What the encoder calls the method.
    pub fn name(&self) -> (name: &'static str)
        ensures
            name@ == self.label(),
    {
        match self {
            Hwaccel::Disabled => "none",
            Hwaccel::Auto => "auto",
            Hwaccel::Vdpau => "vdpau",
            Hwaccel::Dxva2 => "dxva2",
            Hwaccel::D3d11va => "d3d11va",
            Hwaccel::Vaapi => "vaapi",
            Hwaccel::Qsv => "qsv",
        }
    }
}

/// How much is logged.
#[derive(Clone, Copy, Debug, PartialEq, Eq, Structural)]
pub enum Verbosity {
    Info,
    Debug,
    Trace,
}

/// The files that are not, or not any more, to be transcoded.
#[derive(Clone, Copy, Debug, PartialEq, Eq, Structural)]
pub enum FileKind {
    /// Files that are not videos.
    NonVideo,
    /// Videos that cannot be probed.
    BrokenVideo,
    /// Videos that could not be transcoded.
    FailedTranscode,
}

/// How the tool is set up.
#[derive(Debug)]
pub struct Config {
    /// How often a higher verbosity was asked for.
    pub verbose: u8,
    /// Dry-run, not altering any files
    pub dry_run: bool,
    /// Use hardware acceleration to transcode video streams
    pub hwaccel: Hwaccel,
    /// The minimum constant rate factor (CRF) to use when transcoding.
    ///
    /// If an attempt with this CRF grows too large, it will be raised until one does not.
    pub min_crf: u8,
    /// How to handle non-video files.
    pub non_video_action: FileAction,
    /// If `non_video_action` is to move, where to move the files to.
    pub non_video_dir: Option<PathBuf>,
    /// Whether to remove symlinks.
    pub remove_symlinks: bool,
    /// Whether to remove empty directories.
    pub remove_empty_dirs: bool,
    /// How to handle broken video files.
    pub broken_video_action: FileAction,
    /// If `broken_video_action` is to move, where to move the files to.
    pub broken_video_dir: Option<PathBuf>,
    /// How to handle video files which failed to transcode.
    pub failed_transcode_action: FileAction,
    /// If `failed_transcode_action` is to move, where to move the files to.
    pub failed_transcode_dir: Option<PathBuf>,
    /// How to handle successfully transcoded files.
    ///
    /// Here `Delete` means to clobber the original video with the transcode.
    pub transcoded_video_action: FileAction,
    /// Path where to place transcoded videos.
    pub transcoded_video_dir: Option<PathBuf>,
    /// Path to use for temporary processing artifacts, such as ongoing transcodes.
    pub working_dir: PathBuf,
    /// Directory to look for video files to transcode.
    pub video_dir: PathBuf,
}

/// The components of a path, if there is one.
pub open spec fn dir_parts(dir: Option<PathBuf>) -> Option<Seq<PathPart>> {
    match dir {
        Some(dir) => Some(buf_parts(&dir)),
        None => None,
    }
}

impl Config {
    /// What is done with files of this kind.
    pub open spec fn action(self, kind: FileKind) -> FileAction {
        match kind {
            FileKind::NonVideo => self.non_video_action,
            FileKind::BrokenVideo => self.broken_video_action,
            FileKind::FailedTranscode => self.failed_transcode_action,
        }
    }

    /// Where files of this kind are moved to.
    pub open spec fn target_dir(self, kind: FileKind) -> Option<PathBuf> {
        match kind {
            FileKind::NonVideo => self.non_video_dir,
            FileKind::BrokenVideo => self.broken_video_dir,
            FileKind::FailedTranscode => self.failed_transcode_dir,
        }
    }

    /// What is done with files of this kind.
    pub fn action_for(&self, kind: FileKind) -> (action: FileAction)
        ensures
            action == self.action(kind),
    {
        match kind {
            FileKind::NonVideo => self.non_video_action,
            FileKind::BrokenVideo => self.broken_video_action,
            FileKind::FailedTranscode => self.failed_transcode_action,
        }
    }

    /// Where files of this kind are moved to.
    pub fn dir_for(&self, kind: FileKind) -> (dir: &Option<PathBuf>)
        ensures
            *dir == self.target_dir(kind),
    {
        match kind {
            FileKind::NonVideo => &self.non_video_dir,
            FileKind::BrokenVideo => &self.broken_video_dir,
            FileKind::FailedTranscode => &self.failed_transcode_dir,
        }
    }

    /// How much is logged: asking once shows debug messages, asking more often everything.
    pub fn verbosity(&self) -> (verbosity: Verbosity)
        ensures
            verbosity == (if self.verbose == 0 {
                Verbosity::Info
            } else if self.verbose == 1 {
                Verbosity::Debug
            } else {
                Verbosity::Trace
            }),
    {
        match self.verbose {
            0 => Verbosity::Info,
            1 => Verbosity::Debug,
            _ => Verbosity::Trace,
        }
    }
}

/// The encoder is told each acceleration method by its own name, in lower case.
pub proof fn law_methods_have_their_names(hwaccel: &Hwaccel, name: &'static str)
    requires
        call_ensures(Hwaccel::name, (hwaccel,), name),
    ensures
        *hwaccel == Hwaccel::Disabled ==> name@ == "none"@,
        *hwaccel == Hwaccel::Auto ==> name@ == "auto"@,
        *hwaccel == Hwaccel::Vdpau ==> name@ == "vdpau"@,
        *hwaccel == Hwaccel::Dxva2 ==> name@ == "dxva2"@,
        *hwaccel == Hwaccel::D3d11va ==> name@ == "d3d11va"@,
        *hwaccel == Hwaccel::Vaapi ==> name@ == "vaapi"@,
        *hwaccel == Hwaccel::Qsv ==> name@ == "qsv"@,
        name@ == hwaccel.label(),
{
}

/// No two acceleration methods have the same name.
pub proof fn law_method_names_differ(a: Hwaccel, b: Hwaccel)
    requires
        a != b,
    ensures
        a.label() != b.label(),
{
    reveal_strlit("none");
    reveal_strlit("auto");
    reveal_strlit("vdpau");
    reveal_strlit("dxva2");
    reveal_strlit("d3d11va");
    reveal_strlit("vaapi");
    reveal_strlit("qsv");
    assert("none"@[0] == 'n' && "auto"@[0] == 'a');
    assert("vdpau"@[0] == 'v' && "dxva2"@[0] == 'd' && "vaapi"@[0] == 'v');
    assert("vdpau"@[1] == 'd' && "vaapi"@[1] == 'a');
    assert("none"@.len() == 4 && "auto"@.len() == 4 && "qsv"@.len() == 3);
    assert("vdpau"@.len() == 5 && "dxva2"@.len() == 5 && "vaapi"@.len() == 5);
    assert("d3d11va"@.len() == 7);
}

/// Each kind of file has an action and a directory of its own, and those of the others do not
/// matter to it.
pub proof fn law_each_kind_has_its_own_settings(
    config: &Config,
    kind: FileKind,
    action: FileAction,
    dir: &Option<PathBuf>,
)
    requires
        call_ensures(Config::action_for, (config, kind), action),
        call_ensures(Config::dir_for, (config, kind), dir),
    ensures
        kind == FileKind::NonVideo ==> action == config.non_video_action && *dir
            == config.non_video_dir,
        kind == FileKind::BrokenVideo ==> action == config.broken_video_action && *dir
            == config.broken_video_dir,
        kind == FileKind::FailedTranscode ==> action == config.failed_transcode_action && *dir
            == config.failed_transcode_dir,
        action == config.action(kind),
        *dir == config.target_dir(kind),
{
}

/// Asking more often never shows less: not at all shows what is of interest, once adds debug
/// messages, and more often shows everything.
pub proof fn law_verbosity_is_capped(config: &Config, verbosity: Verbosity)
    requires
        call_ensures(Config::verbosity, (config,), verbosity),
    ensures
        verbosity == Verbosity::Info <==> config.verbose == 0,
        verbosity == Verbosity::Debug <==> config.verbose == 1,
        verbosity == Verbosity::Trace <==> config.verbose >= 2,
{
}

} // verus!
