//! Makes the configured directories exist and their paths canonical, one after the other.

use std::path::{Path, PathBuf};

use vstd::prelude::*;

use crate::config::{dir_parts, Config};
use crate::paths::{borrow_path, buf_parts, path_parts, PathPart};

verus! {

/// A directory that can be configured.
#[derive(Clone, Copy, Debug, PartialEq, Eq, Structural)]
pub enum ConfigDir {
    NonVideo,
    BrokenVideo,
    FailedTranscode,
    TranscodedVideo,
    Working,
    Video,
}

/// What went wrong with a directory.
#[derive(Clone, Copy, Debug, PartialEq, Eq, Structural)]
pub enum SetupCause {
    /// Its path could not be expanded.
    ExpandFailed,
    /// It did not exist and could not be created.
    CreateFailed,
    /// Its canonical path could not be found.
    ResolveFailed,
}

/// Something to be done with a configured directory.
#[derive(Debug)]
pub enum SetupRequest<'a> {
    /// Expand what the shell would expand in this path.
    Expand(&'a Path),
    /// See whether there is something at this path.
    Exists(&'a Path),
    /// Create this directory and those that it lies in.
    CreateDirAll(&'a Path),
    /// Find the canonical form of this path.
    Canonicalize(&'a Path),
}

/// What came of a request.
#[derive(Debug)]
pub enum SetupReply {
    /// The expanded path, if it could be expanded.
    Expanded(Option<PathBuf>),
    Exists(bool),
    /// Whether the directory was created.
    Created(bool),
    /// The canonical path, if it was found.
    Resolved(Option<PathBuf>),
}

/// How far a setup has come.
#[derive(Debug)]
pub enum SetupStep {
    Expanding(ConfigDir),
    Checking(ConfigDir, PathBuf),
    Creating(ConfigDir, PathBuf),
    Resolving(ConfigDir, PathBuf),
    /// All directories are set up.
    Finished,
    Failed(ConfigDir, SetupCause),
}

/// The setup of the directories of a configuration.
#[derive(Debug)]
pub struct Setup {
    /// The configuration, with the paths that are canonical by now.
    pub config: Config,
    pub step: SetupStep,
}

/// The mathematical content of a [`SetupRequest`].
pub enum SetupRequestView {
    Expand(Seq<PathPart>),
    Exists(Seq<PathPart>),
    CreateDirAll(Seq<PathPart>),
    Canonicalize(Seq<PathPart>),
}

/// The mathematical content of a [`SetupReply`].
pub enum SetupReplyView {
    Expanded(Option<Seq<PathPart>>),
    Exists(bool),
    Created(bool),
    Resolved(Option<Seq<PathPart>>),
}

/// The mathematical content of a [`SetupStep`].
pub enum SetupStepView {
    Expanding(ConfigDir),
    Checking(ConfigDir, Seq<PathPart>),
    Creating(ConfigDir, Seq<PathPart>),
    Resolving(ConfigDir, Seq<PathPart>),
    Finished,
    Failed(ConfigDir, SetupCause),
}

/// The mathematical content of a [`Setup`].
#[verifier::ext_equal]
pub struct SetupView {
    /// The directories that are configured.
    pub dirs: Map<ConfigDir, Seq<PathPart>>,
    pub step: SetupStepView,
}

impl<'a> View for SetupRequest<'a> {
    type V = SetupRequestView;

    open spec fn view(&self) -> SetupRequestView {
        match *self {
            SetupRequest::Expand(path) => SetupRequestView::Expand(path_parts(path)),
            SetupRequest::Exists(path) => SetupRequestView::Exists(path_parts(path)),
            SetupRequest::CreateDirAll(path) => SetupRequestView::CreateDirAll(path_parts(path)),
            SetupRequest::Canonicalize(path) => SetupRequestView::Canonicalize(path_parts(path)),
        }
    }
}

impl View for SetupReply {
    type V = SetupReplyView;

    open spec fn view(&self) -> SetupReplyView {
        match *self {
            SetupReply::Expanded(path) => SetupReplyView::Expanded(dir_parts(path)),
            SetupReply::Exists(exists) => SetupReplyView::Exists(exists),
            SetupReply::Created(created) => SetupReplyView::Created(created),
            SetupReply::Resolved(path) => SetupReplyView::Resolved(dir_parts(path)),
        }
    }
}

impl View for SetupStep {
    type V = SetupStepView;

    open spec fn view(&self) -> SetupStepView {
        match *self {
            SetupStep::Expanding(dir) => SetupStepView::Expanding(dir),
            SetupStep::Checking(dir, path) => SetupStepView::Checking(dir, buf_parts(&path)),
            SetupStep::Creating(dir, path) => SetupStepView::Creating(dir, buf_parts(&path)),
            SetupStep::Resolving(dir, path) => SetupStepView::Resolving(dir, buf_parts(&path)),
            SetupStep::Finished => SetupStepView::Finished,
            SetupStep::Failed(dir, cause) => SetupStepView::Failed(dir, cause),
        }
    }
}

impl View for Setup {
    type V = SetupView;

    open spec fn view(&self) -> SetupView {
        SetupView { dirs: self.config.dirs(), step: self.step@ }
    }
}

/// How many directories can be configured.
pub const DIR_COUNT: u8 = 6;

impl ConfigDir {
    /// The place of the directory in the order in which they are set up.
    pub open spec fn place(self) -> int {
        match self {
            ConfigDir::NonVideo => 0,
            ConfigDir::BrokenVideo => 1,
            ConfigDir::FailedTranscode => 2,
            ConfigDir::TranscodedVideo => 3,
            ConfigDir::Working => 4,
            ConfigDir::Video => 5,
        }
    }

    /// The directory at this place.
    pub open spec fn at(place: int) -> ConfigDir {
        if place <= 0 {
            ConfigDir::NonVideo
        } else if place == 1 {
            ConfigDir::BrokenVideo
        } else if place == 2 {
            ConfigDir::FailedTranscode
        } else if place == 3 {
            ConfigDir::TranscodedVideo
        } else if place == 4 {
            ConfigDir::Working
        } else {
            ConfigDir::Video
        }
    }

    fn number(self) -> (place: u8)
        ensures
            place == self.place(),
    {
        match self {
            ConfigDir::NonVideo => 0,
            ConfigDir::BrokenVideo => 1,
            ConfigDir::FailedTranscode => 2,
            ConfigDir::TranscodedVideo => 3,
            ConfigDir::Working => 4,
            ConfigDir::Video => 5,
        }
    }

    fn numbered(place: u8) -> (dir: ConfigDir)
        ensures
            dir == Self::at(place as int),
    {
        match place {
            0 => ConfigDir::NonVideo,
            1 => ConfigDir::BrokenVideo,
            2 => ConfigDir::FailedTranscode,
            3 => ConfigDir::TranscodedVideo,
            4 => ConfigDir::Working,
            _ => ConfigDir::Video,
        }
    }
}

impl Config {
    /// The path of a directory, if it is configured.
    pub open spec fn configured(self, dir: ConfigDir) -> Option<Seq<PathPart>> {
        match dir {
            ConfigDir::NonVideo => dir_parts(self.non_video_dir),
            ConfigDir::BrokenVideo => dir_parts(self.broken_video_dir),
            ConfigDir::FailedTranscode => dir_parts(self.failed_transcode_dir),
            ConfigDir::TranscodedVideo => dir_parts(self.transcoded_video_dir),
            ConfigDir::Working => Some(buf_parts(&self.working_dir)),
            ConfigDir::Video => Some(buf_parts(&self.video_dir)),
        }
    }

    /// The directories that are configured.
    pub open spec fn dirs(self) -> Map<ConfigDir, Seq<PathPart>> {
        Map::new(
            |dir: ConfigDir| self.configured(dir) is Some,
            |dir: ConfigDir| self.configured(dir).unwrap(),
        )
    }

    /// Whether two configurations differ in their directories at most.
    pub open spec fn same_settings(self, other: Config) -> bool {
        &&& self.verbose == other.verbose
        &&& self.dry_run == other.dry_run
        &&& self.hwaccel == other.hwaccel
        &&& self.min_crf == other.min_crf
        &&& self.non_video_action == other.non_video_action
        &&& self.remove_symlinks == other.remove_symlinks
        &&& self.remove_empty_dirs == other.remove_empty_dirs
        &&& self.broken_video_action == other.broken_video_action
        &&& self.failed_transcode_action == other.failed_transcode_action
        &&& self.transcoded_video_action == other.transcoded_video_action
    }

    /// The path of a directory, if it is configured.
    fn dir(&self, dir: ConfigDir) -> (path: Option<&PathBuf>)
        ensures
            path is Some <==> self.configured(dir) is Some,
            path matches Some(path) ==> self.configured(dir) == Some(buf_parts(path)),
    {
        match dir {
            ConfigDir::NonVideo => self.non_video_dir.as_ref(),
            ConfigDir::BrokenVideo => self.broken_video_dir.as_ref(),
            ConfigDir::FailedTranscode => self.failed_transcode_dir.as_ref(),
            ConfigDir::TranscodedVideo => self.transcoded_video_dir.as_ref(),
            ConfigDir::Working => Some(&self.working_dir),
            ConfigDir::Video => Some(&self.video_dir),
        }
    }

    /// Changes the path of a directory.
    fn set_dir(&mut self, dir: ConfigDir, path: PathBuf)
        ensures
            final(self).dirs() == old(self).dirs().insert(dir, buf_parts(&path)),
            final(self).same_settings(*old(self)),
    {
        let ghost parts = buf_parts(&path);
        match dir {
            ConfigDir::NonVideo => self.non_video_dir = Some(path),
            ConfigDir::BrokenVideo => self.broken_video_dir = Some(path),
            ConfigDir::FailedTranscode => self.failed_transcode_dir = Some(path),
            ConfigDir::TranscodedVideo => self.transcoded_video_dir = Some(path),
            ConfigDir::Working => self.working_dir = path,
            ConfigDir::Video => self.video_dir = path,
        }
        assert(self.dirs() =~= old(self).dirs().insert(dir, parts));
    }
}

/// What is next after the directories before `place` were set up: the first one from there on
/// that is configured.
pub open spec fn step_from(dirs: Map<ConfigDir, Seq<PathPart>>, place: int) -> SetupStepView
    decreases DIR_COUNT - place,
{
    if place >= DIR_COUNT {
        SetupStepView::Finished
    } else if dirs.dom().contains(ConfigDir::at(place)) {
        SetupStepView::Expanding(ConfigDir::at(place))
    } else {
        step_from(dirs, place + 1)
    }
}

impl SetupView {
    /// What the setup waits for.
    pub open spec fn pending(self) -> Option<SetupRequestView> {
        match self.step {
            SetupStepView::Expanding(dir) => Some(SetupRequestView::Expand(self.dirs[dir])),
            SetupStepView::Checking(_, path) => Some(SetupRequestView::Exists(path)),
            SetupStepView::Creating(_, path) => Some(SetupRequestView::CreateDirAll(path)),
            SetupStepView::Resolving(_, path) => Some(SetupRequestView::Canonicalize(path)),
            SetupStepView::Finished | SetupStepView::Failed(_, _) => None,
        }
    }

    /// Whether `reply` is a reply to what the setup waits for.
    pub open spec fn accepts(self, reply: SetupReplyView) -> bool {
        match self.step {
            SetupStepView::Expanding(_) => reply is Expanded,
            SetupStepView::Checking(_, _) => reply is Exists,
            SetupStepView::Creating(_, _) => reply is Created,
            SetupStepView::Resolving(_, _) => reply is Resolved,
            SetupStepView::Finished | SetupStepView::Failed(_, _) => false,
        }
    }

    /// Whether the setup can be in this state: a directory that is being set up is configured.
    pub open spec fn valid(self) -> bool {
        match self.step {
            SetupStepView::Expanding(dir)
            | SetupStepView::Checking(dir, _)
            | SetupStepView::Creating(dir, _)
            | SetupStepView::Resolving(dir, _) => self.dirs.dom().contains(dir),
            SetupStepView::Finished | SetupStepView::Failed(_, _) => true,
        }
    }

    /// The setup after `reply`.
    pub open spec fn after(self, reply: SetupReplyView) -> SetupView {
        match (self.step, reply) {
            (
                SetupStepView::Expanding(dir),
                SetupReplyView::Expanded(Some(path)),
            ) => self.at(SetupStepView::Checking(dir, path)),
            (SetupStepView::Expanding(dir), _) => self.at(
                SetupStepView::Failed(dir, SetupCause::ExpandFailed),
            ),
            (
                SetupStepView::Checking(dir, path),
                SetupReplyView::Exists(false),
            ) => self.at(SetupStepView::Creating(dir, path)),
            (SetupStepView::Checking(dir, path), _) => self.at(
                SetupStepView::Resolving(dir, path),
            ),
            (
                SetupStepView::Creating(dir, path),
                SetupReplyView::Created(true),
            ) => self.at(SetupStepView::Resolving(dir, path)),
            (SetupStepView::Creating(dir, _), _) => self.at(
                SetupStepView::Failed(dir, SetupCause::CreateFailed),
            ),
            (SetupStepView::Resolving(dir, _), SetupReplyView::Resolved(Some(path))) => {
                let dirs = self.dirs.insert(dir, path);
                SetupView { dirs, step: step_from(dirs, dir.place() + 1) }
            },
            (SetupStepView::Resolving(dir, _), _) => self.at(
                SetupStepView::Failed(dir, SetupCause::ResolveFailed),
            ),
            (_, _) => self,
        }
    }

    /// The setup with another step.
    pub open spec fn at(self, step: SetupStepView) -> SetupView {
        SetupView { step, ..self }
    }
}

/// What comes first is a directory that is configured.
proof fn lemma_step_from(dirs: Map<ConfigDir, Seq<PathPart>>, place: int)
    requires
        0 <= place,
    ensures
        match step_from(dirs, place) {
            SetupStepView::Expanding(dir) => {
                &&& dirs.dom().contains(dir)
                &&& place <= dir.place()
                &&& forall|other: ConfigDir|
                    place <= #[trigger] other.place() < dir.place() ==> !dirs.dom().contains(other)
            },
            SetupStepView::Finished => forall|other: ConfigDir|
                place <= #[trigger] other.place() ==> !dirs.dom().contains(other),
            _ => false,
        },
    decreases DIR_COUNT - place,
{
    if place < DIR_COUNT {
        assert(forall|other: ConfigDir| #[trigger] other.place() == place ==> other
            == ConfigDir::at(place));
        assert(ConfigDir::at(place).place() == place);
        if !dirs.dom().contains(ConfigDir::at(place)) {
            lemma_step_from(dirs, place + 1);
        }
    }
}

impl Setup {
    /// Starts to set up the directories of `config`.
    pub fn start(config: Config) -> (setup: Self)
        ensures
            setup@ == (SetupView { dirs: config.dirs(), step: step_from(config.dirs(), 0) }),
            setup@.valid(),
            setup.config == config,
    {
        let step = Self::find_step(&config, 0);
        proof {
            lemma_step_from(config.dirs(), 0);
        }
        Setup { config, step }
    }

    /// Finds the first directory, from this place on, that is configured.
    fn find_step(config: &Config, from: u8) -> (step: SetupStep)
        ensures
            step@ == step_from(config.dirs(), from as int),
    {
        let mut place: u8 = from;
        while place < DIR_COUNT
            invariant
                step_from(config.dirs(), place as int) == step_from(config.dirs(), from as int),
            decreases DIR_COUNT - place,
        {
            let dir = ConfigDir::numbered(place);
            if config.dir(dir).is_some() {
                return SetupStep::Expanding(dir);
            }
            place = place + 1;
        }
        SetupStep::Finished
    }

    /// What has to be done next, or `None` once the setup has ended.
    pub fn request(&self) -> (request: Option<SetupRequest<'_>>)
        requires
            self@.valid(),
        ensures
            match request {
                Some(request) => self@.pending() == Some(request@),
                None => self@.pending() is None,
            },
    {
        match &self.step {
            SetupStep::Expanding(dir) => match self.config.dir(*dir) {
                Some(path) => Some(SetupRequest::Expand(borrow_path(path))),
                None => None,
            },
            SetupStep::Checking(_, path) => Some(SetupRequest::Exists(borrow_path(path))),
            SetupStep::Creating(_, path) => Some(SetupRequest::CreateDirAll(borrow_path(path))),
            SetupStep::Resolving(_, path) => Some(SetupRequest::Canonicalize(borrow_path(path))),
            SetupStep::Finished | SetupStep::Failed(_, _) => None,
        }
    }

    /// Takes what came of the last request.
    pub fn advance(self, reply: SetupReply) -> (setup: Self)
        requires
            self@.accepts(reply@),
        ensures
            setup@ == self@.after(reply@),
            self@.valid() ==> setup@.valid(),
            setup.config.same_settings(self.config),
    {
        let mut config = self.config;
        let step = match (self.step, reply) {
            (SetupStep::Expanding(dir), SetupReply::Expanded(Some(path))) => {
                SetupStep::Checking(dir, path)
            },
            (SetupStep::Expanding(dir), _) => SetupStep::Failed(dir, SetupCause::ExpandFailed),
            (SetupStep::Checking(dir, path), SetupReply::Exists(exists)) => {
                if exists {
                    SetupStep::Resolving(dir, path)
                } else {
                    SetupStep::Creating(dir, path)
                }
            },
            (SetupStep::Creating(dir, path), SetupReply::Created(created)) => {
                if created {
                    SetupStep::Resolving(dir, path)
                } else {
                    SetupStep::Failed(dir, SetupCause::CreateFailed)
                }
            },
            (SetupStep::Resolving(dir, _), SetupReply::Resolved(Some(path))) => {
                config.set_dir(dir, path);
                proof {
                    lemma_step_from(config.dirs(), dir.place() + 1);
                }
                Self::find_step(&config, dir.number() + 1)
            },
            (SetupStep::Resolving(dir, _), _) => SetupStep::Failed(dir, SetupCause::ResolveFailed),
            (step, _) => step,
        };
        Setup { config, step }
    }
}

/// The setup of these directories after all of `replies`, if each is a reply to what it then waits
/// for.
pub open spec fn setup_after(
    dirs: Map<ConfigDir, Seq<PathPart>>,
    replies: Seq<SetupReplyView>,
) -> Option<SetupView>
    decreases replies.len(),
{
    if replies.len() == 0 {
        Some(SetupView { dirs, step: step_from(dirs, 0) })
    } else {
        match setup_after(dirs, replies.drop_last()) {
            Some(setup) => if setup.accepts(replies.last()) {
                Some(setup.after(replies.last()))
            } else {
                None
            },
            None => None,
        }
    }
}

/// Whether the directory was found to have this canonical path.
pub open spec fn resolved_to(
    dirs: Map<ConfigDir, Seq<PathPart>>,
    replies: Seq<SetupReplyView>,
    dir: ConfigDir,
    path: Seq<PathPart>,
) -> bool {
    exists|k: int|
        0 <= k < replies.len() && #[trigger] resolved_by(dirs, replies, k, dir, path)
}

/// Whether reply number `k` told that the directory has this canonical path.
pub open spec fn resolved_by(
    dirs: Map<ConfigDir, Seq<PathPart>>,
    replies: Seq<SetupReplyView>,
    k: int,
    dir: ConfigDir,
    path: Seq<PathPart>,
) -> bool {
    &&& replies[k] == SetupReplyView::Resolved(Some(path))
    &&& setup_after(dirs, replies.take(k)) matches Some(setup) && (
    setup.step matches SetupStepView::Resolving(resolving, _) && resolving == dir)
}

/// The place that the setup has come to.
spec fn reached(step: SetupStepView) -> int {
    match step {
        SetupStepView::Expanding(dir)
        | SetupStepView::Checking(dir, _)
        | SetupStepView::Creating(dir, _)
        | SetupStepView::Resolving(dir, _)
        | SetupStepView::Failed(dir, _) => dir.place(),
        SetupStepView::Finished => DIR_COUNT as int,
    }
}

/// The directories before the place that the setup has come to have been resolved, those after it
/// are as they were.
proof fn lemma_setup_progress(
    dirs: Map<ConfigDir, Seq<PathPart>>,
    replies: Seq<SetupReplyView>,
    dir: ConfigDir,
)
    requires
        setup_after(dirs, replies) is Some,
    ensures
        ({
            let setup = setup_after(dirs, replies).unwrap();
            &&& setup.valid()
            &&& setup.dirs.dom() == dirs.dom()
            &&& dirs.dom().contains(dir) && dir.place() < reached(setup.step) ==> resolved_to(
                dirs,
                replies,
                dir,
                setup.dirs[dir],
            )
            &&& dirs.dom().contains(dir) && dir.place() >= reached(setup.step) ==> setup.dirs[dir]
                == dirs[dir]
        }),
    decreases replies.len(),
{
    if replies.len() == 0 {
        lemma_step_from(dirs, 0);
        assert(dir.place() >= 0);
    } else {
        let earlier = replies.drop_last();
        let before = setup_after(dirs, earlier).unwrap();
        let after = setup_after(dirs, replies).unwrap();
        let last = replies.len() - 1;
        lemma_setup_progress(dirs, earlier, dir);
        assert(replies.take(last) =~= earlier);
        if resolved_to(dirs, earlier, dir, before.dirs[dir]) {
            let k = choose|k: int|
                0 <= k < earlier.len() && #[trigger] resolved_by(
                    dirs,
                    earlier,
                    k,
                    dir,
                    before.dirs[dir],
                );
            assert(earlier.take(k) =~= replies.take(k));
            assert(resolved_by(dirs, replies, k, dir, before.dirs[dir]));
        }
        if let SetupStepView::Resolving(resolving, _) = before.step {
            if let SetupReplyView::Resolved(Some(path)) = replies.last() {
                lemma_step_from(after.dirs, resolving.place() + 1);
                assert(after.dirs.dom() =~= dirs.dom());
                assert(resolved_by(dirs, replies, last, resolving, path));
                assert(resolving.place() == dir.place() ==> resolving == dir);
            }
        }
    }
}

/// Once a setup has finished, every configured directory has the canonical path that was found for
/// it, and no other directory is configured.
pub proof fn law_finished_setup_is_canonical(
    dirs: Map<ConfigDir, Seq<PathPart>>,
    replies: Seq<SetupReplyView>,
    dir: ConfigDir,
)
    requires
        setup_after(dirs, replies) matches Some(setup) && setup.step is Finished,
    ensures
        setup_after(dirs, replies).unwrap().dirs.dom() == dirs.dom(),
        dirs.dom().contains(dir) ==> resolved_to(
            dirs,
            replies,
            dir,
            setup_after(dirs, replies).unwrap().dirs[dir],
        ),
{
    lemma_setup_progress(dirs, replies, dir);
}

/// A directory is created only right after there was seen to be nothing at its path.
pub proof fn law_only_missing_dirs_are_created(
    dirs: Map<ConfigDir, Seq<PathPart>>,
    replies: Seq<SetupReplyView>,
    path: Seq<PathPart>,
)
    requires
        setup_after(dirs, replies) matches Some(setup) && setup.pending() == Some(
            SetupRequestView::CreateDirAll(path),
        ),
    ensures
        replies.len() > 0,
        replies.last() == SetupReplyView::Exists(false),
        setup_after(dirs, replies.drop_last()) matches Some(earlier) && earlier.pending() == Some(
            SetupRequestView::Exists(path),
        ),
{
    if replies.len() == 0 {
        lemma_step_from(dirs, 0);
    } else {
        let before = setup_after(dirs, replies.drop_last()).unwrap();
        if let SetupStepView::Resolving(dir, _) = before.step {
            if let SetupReplyView::Resolved(Some(resolved)) = replies.last() {
                lemma_step_from(before.dirs.insert(dir, resolved), dir.place() + 1);
            }
        }
    }
}

/// How many replies a setup has taken at most once it is at this step.
spec fn replies_bound(step: SetupStepView) -> int {
    match step {
        SetupStepView::Expanding(dir) => 4 * dir.place(),
        SetupStepView::Checking(dir, _) => 4 * dir.place() + 1,
        SetupStepView::Creating(dir, _) => 4 * dir.place() + 2,
        SetupStepView::Resolving(dir, _) => 4 * dir.place() + 3,
        SetupStepView::Failed(dir, _) => 4 * dir.place() + 4,
        SetupStepView::Finished => 4 * DIR_COUNT,
    }
}

proof fn lemma_replies_bound(dirs: Map<ConfigDir, Seq<PathPart>>, replies: Seq<SetupReplyView>)
    requires
        setup_after(dirs, replies) is Some,
    ensures
        replies.len() <= replies_bound(setup_after(dirs, replies).unwrap().step),
    decreases replies.len(),
{
    if replies.len() == 0 {
        lemma_step_from(dirs, 0);
    } else {
        let before = setup_after(dirs, replies.drop_last()).unwrap();
        lemma_replies_bound(dirs, replies.drop_last());
        if let SetupStepView::Resolving(dir, _) = before.step {
            if let SetupReplyView::Resolved(Some(resolved)) = replies.last() {
                lemma_step_from(before.dirs.insert(dir, resolved), dir.place() + 1);
            }
        }
    }
}

/// Every setup ends: no directory takes more than four replies.
pub proof fn law_setup_ends(dirs: Map<ConfigDir, Seq<PathPart>>, replies: Seq<SetupReplyView>)
    requires
        setup_after(dirs, replies) is Some,
    ensures
        replies.len() <= 4 * DIR_COUNT,
        replies.len() == 4 * DIR_COUNT ==> setup_after(dirs, replies).unwrap().pending() is None,
{
    lemma_replies_bound(dirs, replies);
}

/// The directories are set up in this order: those for files that are no videos, broken ones,
/// failed ones and transcodes, then the working directory, and the video directory last.
pub proof fn law_dirs_are_set_up_in_order(dir: ConfigDir)
    ensures
        ConfigDir::NonVideo.place() == 0,
        ConfigDir::BrokenVideo.place() == 1,
        ConfigDir::FailedTranscode.place() == 2,
        ConfigDir::TranscodedVideo.place() == 3,
        ConfigDir::Working.place() == 4,
        ConfigDir::Video.place() == 5,
        ConfigDir::at(dir.place()) == dir,
        DIR_COUNT == 6,
{
}

/// The directories that are set up are the configured ones, each as the setting that it is named
/// after. The working directory and the video directory are always among them.
pub proof fn law_dirs_are_the_settings(config: Config, dir: ConfigDir)
    ensures
        ({
            let setting = match dir {
                ConfigDir::NonVideo => config.non_video_dir,
                ConfigDir::BrokenVideo => config.broken_video_dir,
                ConfigDir::FailedTranscode => config.failed_transcode_dir,
                ConfigDir::TranscodedVideo => config.transcoded_video_dir,
                ConfigDir::Working => Some(config.working_dir),
                ConfigDir::Video => Some(config.video_dir),
            };
            &&& config.dirs().dom().contains(dir) <==> setting is Some
            &&& setting matches Some(path) ==> config.dirs()[dir] == buf_parts(&path)
        }),
{
}

/// A setup changes directories and nothing else.
pub proof fn law_setup_changes_only_dirs(setup: Setup, reply: SetupReply, next: Setup)
    requires
        call_ensures(Setup::advance, (setup, reply), next),
    ensures
        next.config.verbose == setup.config.verbose,
        next.config.dry_run == setup.config.dry_run,
        next.config.hwaccel == setup.config.hwaccel,
        next.config.min_crf == setup.config.min_crf,
        next.config.non_video_action == setup.config.non_video_action,
        next.config.remove_symlinks == setup.config.remove_symlinks,
        next.config.remove_empty_dirs == setup.config.remove_empty_dirs,
        next.config.broken_video_action == setup.config.broken_video_action,
        next.config.failed_transcode_action == setup.config.failed_transcode_action,
        next.config.transcoded_video_action == setup.config.transcoded_video_action,
{
}

/// What is next after a directory is the first one behind it that is configured. If there is none,
/// the setup has finished.
pub proof fn law_next_dir_is_the_next_configured(
    dirs: Map<ConfigDir, Seq<PathPart>>,
    place: int,
    dir: ConfigDir,
)
    requires
        0 <= place,
    ensures
        step_from(dirs, place) == SetupStepView::Expanding(dir) <==> dirs.dom().contains(dir)
            && place <= dir.place() && forall|other: ConfigDir|
            place <= #[trigger] other.place() < dir.place() ==> !dirs.dom().contains(other),
        step_from(dirs, place) is Finished <==> forall|other: ConfigDir|
            place <= #[trigger] other.place() ==> !dirs.dom().contains(other),
        step_from(dirs, place) is Finished || step_from(dirs, place) is Expanding,
{
    lemma_step_from(dirs, place);
    match step_from(dirs, place) {
        SetupStepView::Expanding(found) => {
            assert(found.place() < dir.place() || dir.place() < found.place() || found == dir);
            assert(place <= found.place());
        },
        _ => {
            assert(place <= dir.place() ==> !dirs.dom().contains(dir));
        },
    }
}

/// A setup starts with the first directory that is configured, and no directory is changed yet.
pub proof fn law_setup_starts_with_first_dir(config: Config, setup: Setup)
    requires
        call_ensures(Setup::start, (config,), setup),
    ensures
        setup.config == config,
        setup@.dirs == config.dirs(),
        config.non_video_dir is Some ==> setup@.step == SetupStepView::Expanding(
            ConfigDir::NonVideo,
        ),
        setup@.step is Expanding,
        setup@.pending() matches Some(SetupRequestView::Expand(_)),
{
    law_dirs_are_the_settings(config, ConfigDir::NonVideo);
    law_dirs_are_the_settings(config, ConfigDir::Working);
    law_next_dir_is_the_next_configured(config.dirs(), 0, ConfigDir::NonVideo);
    if setup@.step is Finished {
        assert(ConfigDir::Working.place() >= 0);
    }
}

/// Of a directory, the configured path is expanded first. What comes of that is the path that is
/// looked for, created if there is nothing, and made canonical.
pub proof fn law_expanded_path_is_set_up(setup: SetupView, dir: ConfigDir, path: Seq<PathPart>)
    requires
        setup.step == SetupStepView::Expanding(dir),
    ensures
        ({
            let expanded = setup.after(SetupReplyView::Expanded(Some(path)));
            let missing = expanded.after(SetupReplyView::Exists(false));
            let present = expanded.after(SetupReplyView::Exists(true));
            &&& setup.pending() == Some(SetupRequestView::Expand(setup.dirs[dir]))
            &&& expanded.pending() == Some(SetupRequestView::Exists(path))
            &&& missing.pending() == Some(SetupRequestView::CreateDirAll(path))
            &&& present.pending() == Some(SetupRequestView::Canonicalize(path))
            &&& missing.after(SetupReplyView::Created(true)) == present
            &&& expanded.dirs == setup.dirs && missing.dirs == setup.dirs && present.dirs
                == setup.dirs
            &&& present.step == SetupStepView::Resolving(dir, path)
        }),
{
}

/// Once its canonical path is found, a directory has that path, all others keep theirs, and the
/// setup goes on with the next one that is configured.
pub proof fn law_canonical_path_is_kept(
    setup: SetupView,
    dir: ConfigDir,
    path: Seq<PathPart>,
    canonical: Seq<PathPart>,
    other: ConfigDir,
)
    requires
        setup.step == SetupStepView::Resolving(dir, path),
        setup.dirs.dom().contains(dir),
    ensures
        ({
            let next = setup.after(SetupReplyView::Resolved(Some(canonical)));
            &&& next.dirs[dir] == canonical
            &&& next.dirs.dom() == setup.dirs.dom()
            &&& other != dir ==> next.dirs[other] == setup.dirs[other]
            &&& next.step == step_from(next.dirs, dir.place() + 1)
        }),
{
    assert(setup.dirs.insert(dir, canonical).dom() =~= setup.dirs.dom());
}

/// A setup fails exactly when what was asked of a directory could not be done, and says of which
/// and what.
pub proof fn law_setup_fails_for_a_reason(
    setup: SetupView,
    reply: SetupReplyView,
    dir: ConfigDir,
    cause: SetupCause,
)
    requires
        setup.accepts(reply),
    ensures
        setup.after(reply).step == SetupStepView::Failed(dir, cause) <==> match (
            setup.step,
            reply,
            cause,
        ) {
            (
                SetupStepView::Expanding(at),
                SetupReplyView::Expanded(path),
                SetupCause::ExpandFailed,
            ) => at == dir && path is None,
            (
                SetupStepView::Creating(at, _),
                SetupReplyView::Created(created),
                SetupCause::CreateFailed,
            ) => at == dir && !created,
            (
                SetupStepView::Resolving(at, _),
                SetupReplyView::Resolved(path),
                SetupCause::ResolveFailed,
            ) => at == dir && path is None,
            _ => false,
        },
        setup.after(reply).step is Failed ==> setup.after(reply).dirs == setup.dirs,
{
    if let SetupStepView::Resolving(at, _) = setup.step {
        if let SetupReplyView::Resolved(Some(path)) = reply {
            lemma_step_from(setup.dirs.insert(at, path), at.place() + 1);
        }
    }
}

/// A setup is told of what it asked for and of nothing else, and it asks until it has finished or
/// failed.
pub proof fn law_setup_replies_fit_requests(setup: SetupView, reply: SetupReplyView)
    ensures
        setup.accepts(reply) <==> match reply {
            SetupReplyView::Expanded(_) => setup.pending() matches Some(SetupRequestView::Expand(_)),
            SetupReplyView::Exists(_) => setup.pending() matches Some(SetupRequestView::Exists(_)),
            SetupReplyView::Created(_) => setup.pending() matches Some(
                SetupRequestView::CreateDirAll(_),
            ),
            SetupReplyView::Resolved(_) => setup.pending() matches Some(
                SetupRequestView::Canonicalize(_),
            ),
        },
        setup.pending() is None <==> setup.step is Finished || setup.step is Failed,
{
}

} // verus!
