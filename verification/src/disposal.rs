//! What happens to a file that is not, or not any more, to be transcoded: one that is no video, a
//! broken video, or a video that could not be transcoded.

use std::path::PathBuf;

use vstd::prelude::*;

use crate::config::{dir_parts, Config, FileAction, FileKind};
use crate::paths::{
    borrow_path, buf_parts, has_parent, path_parts, recreate_subtree, relocated, Destination,
    PathPart, SubtreeError,
};
use crate::requests::{request_view, CopySource, Reply, ReplyView, Request, RequestView};

verus! {

/// Why a file could not be disposed of.
#[derive(Clone, Copy, Debug, PartialEq, Eq, Structural)]
pub enum DisposalError {
    /// It is no file.
    NotAFile,
    /// It could not be deleted.
    DeleteFailed,
    /// It is to be moved, but there is no directory to move it to.
    NoTargetDir,
    /// Its canonical path could not be found.
    LocateFailed,
    /// It has no place in the directory it is to be moved to.
    NoPlace(SubtreeError),
    /// The directory that it is to be moved to could not be created.
    CreateDirFailed,
    /// It could not be copied.
    CopyFailed,
    /// It was copied, but the file itself could not be removed.
    RemoveFailed,
}

/// How a disposal ended.
#[derive(Clone, Copy, Debug, PartialEq, Eq, Structural)]
pub enum DisposalEnd {
    /// The file stays where it is.
    Skipped,
    /// The file is deleted, or would be but for a dry run.
    Deleted,
    /// The file is moved, or would be but for a dry run.
    Moved,
    Failed(DisposalError),
}

/// The disposal of a file, and how far it has come.
#[derive(Debug)]
pub enum Disposal {
    Checking,
    Deleting,
    Locating,
    Preparing(Destination),
    Copying { file: PathBuf },
    /// The file has been copied.
    Removing,
    Finished(DisposalEnd),
}

/// The mathematical content of a [`Disposal`].
pub enum DisposalView {
    Checking,
    Deleting,
    Locating,
    Preparing { file: Seq<PathPart>, dir: Seq<PathPart> },
    Copying { file: Seq<PathPart> },
    Removing,
    Finished(DisposalEnd),
}

impl View for Disposal {
    type V = DisposalView;

    open spec fn view(&self) -> DisposalView {
        match *self {
            Disposal::Checking => DisposalView::Checking,
            Disposal::Deleting => DisposalView::Deleting,
            Disposal::Locating => DisposalView::Locating,
            Disposal::Preparing(destination) => DisposalView::Preparing {
                file: buf_parts(&destination.file),
                dir: buf_parts(&destination.dir),
            },
            Disposal::Copying { file } => DisposalView::Copying { file: buf_parts(&file) },
            Disposal::Removing => DisposalView::Removing,
            Disposal::Finished(end) => DisposalView::Finished(end),
        }
    }
}

impl DisposalView {
    /// What the disposal waits for.
    pub open spec fn pending(self) -> Option<RequestView> {
        match self {
            DisposalView::Checking => Some(RequestView::IsFile),
            DisposalView::Deleting | DisposalView::Removing => Some(RequestView::RemoveFile),
            DisposalView::Locating => Some(RequestView::Canonicalize),
            DisposalView::Preparing { dir, .. } => Some(RequestView::CreateDirAll(dir)),
            DisposalView::Copying { file } => Some(
                RequestView::CopyTo(CopySource::File, file),
            ),
            DisposalView::Finished(_) => None,
        }
    }

    /// Whether `reply` is a reply to what the disposal waits for.
    pub open spec fn accepts(self, reply: ReplyView) -> bool {
        self.pending() matches Some(request) && request.answered_by(reply)
    }

    /// The disposal after `reply`.
    pub open spec fn after(self, config: Config, kind: FileKind, reply: ReplyView) -> Self {
        match (self, reply) {
            (DisposalView::Checking, ReplyView::Answer(true)) => chosen(config, kind),
            (DisposalView::Checking, _) => failed(DisposalError::NotAFile),
            (DisposalView::Deleting, ReplyView::Completed) => DisposalView::Finished(
                DisposalEnd::Deleted,
            ),
            (DisposalView::Deleting, _) => failed(DisposalError::DeleteFailed),
            (DisposalView::Locating, ReplyView::Located(source)) => placed(config, kind, source),
            (DisposalView::Locating, _) => failed(DisposalError::LocateFailed),
            (DisposalView::Preparing { file, .. }, ReplyView::Completed) => DisposalView::Copying {
                file,
            },
            (DisposalView::Preparing { .. }, _) => failed(DisposalError::CreateDirFailed),
            (DisposalView::Copying { .. }, ReplyView::Completed) => DisposalView::Removing,
            (DisposalView::Copying { .. }, _) => failed(DisposalError::CopyFailed),
            (DisposalView::Removing, ReplyView::Completed) => DisposalView::Finished(
                DisposalEnd::Moved,
            ),
            (DisposalView::Removing, _) => failed(DisposalError::RemoveFailed),
            (DisposalView::Finished(_), _) => self,
        }
    }
}

/// A disposal that failed.
pub open spec fn failed(error: DisposalError) -> DisposalView {
    DisposalView::Finished(DisposalEnd::Failed(error))
}

/// What is to be done with a file of this kind.
pub open spec fn chosen(config: Config, kind: FileKind) -> DisposalView {
    match config.action(kind) {
        FileAction::Skip => DisposalView::Finished(DisposalEnd::Skipped),
        FileAction::Delete => if config.dry_run {
            DisposalView::Finished(DisposalEnd::Deleted)
        } else {
            DisposalView::Deleting
        },
        FileAction::Move => if config.target_dir(kind) is None {
            failed(DisposalError::NoTargetDir)
        } else if config.dry_run {
            DisposalView::Finished(DisposalEnd::Moved)
        } else {
            DisposalView::Locating
        },
    }
}

/// Where the file whose canonical path is `source` is moved to: the place that it has below the
/// video directory, below the directory for files of its kind.
pub open spec fn placed(config: Config, kind: FileKind, source: Seq<PathPart>) -> DisposalView {
    match dir_parts(config.target_dir(kind)) {
        None => failed(DisposalError::NoTargetDir),
        Some(dir) => {
            let root = buf_parts(&config.video_dir);
            let target = relocated(root, source, dir);
            if !root.is_prefix_of(source) {
                failed(DisposalError::NoPlace(SubtreeError::OutsideRoot))
            } else if !has_parent(target) {
                failed(DisposalError::NoPlace(SubtreeError::NoParent))
            } else {
                DisposalView::Preparing { file: target, dir: target.drop_last() }
            }
        },
    }
}

impl Disposal {
    /// Starts to dispose of a file.
    pub fn start() -> (disposal: Self)
        ensures
            disposal@ == DisposalView::Checking,
    {
        Disposal::Checking
    }

    /// What has to be done next, or `None` once the disposal has ended.
    pub fn request(&self) -> (request: Option<Request<'_>>)
        ensures
            request_view(request) == self@.pending(),
    {
        match self {
            Disposal::Checking => Some(Request::IsFile),
            Disposal::Deleting | Disposal::Removing => Some(Request::RemoveFile),
            Disposal::Locating => Some(Request::Canonicalize),
            Disposal::Preparing(destination) => Some(
                Request::CreateDirAll(borrow_path(&destination.dir)),
            ),
            Disposal::Copying { file } => Some(
                Request::CopyTo(CopySource::File, borrow_path(file)),
            ),
            Disposal::Finished(_) => None,
        }
    }

    /// Takes what came of the last request.
    pub fn advance(self, config: &Config, kind: FileKind, reply: Reply) -> (disposal: Self)
        requires
            self@.accepts(reply@),
        ensures
            disposal@ == self@.after(*config, kind, reply@),
    {
        match (self, reply) {
            (Disposal::Checking, Reply::Answer(is_file)) => {
                if is_file {
                    Self::decide(config, kind)
                } else {
                    Disposal::Finished(DisposalEnd::Failed(DisposalError::NotAFile))
                }
            },
            (Disposal::Deleting, Reply::Completed) => Disposal::Finished(DisposalEnd::Deleted),
            (Disposal::Deleting, _) => {
                Disposal::Finished(DisposalEnd::Failed(DisposalError::DeleteFailed))
            },
            (Disposal::Locating, Reply::Located(source)) => Self::place(config, kind, source),
            (Disposal::Locating, _) => {
                Disposal::Finished(DisposalEnd::Failed(DisposalError::LocateFailed))
            },
            (Disposal::Preparing(destination), Reply::Completed) => {
                Disposal::Copying { file: destination.file }
            },
            (Disposal::Preparing(_), _) => {
                Disposal::Finished(DisposalEnd::Failed(DisposalError::CreateDirFailed))
            },
            (Disposal::Copying { .. }, Reply::Completed) => Disposal::Removing,
            (Disposal::Copying { .. }, _) => {
                Disposal::Finished(DisposalEnd::Failed(DisposalError::CopyFailed))
            },
            (Disposal::Removing, Reply::Completed) => Disposal::Finished(DisposalEnd::Moved),
            (Disposal::Removing, _) => {
                Disposal::Finished(DisposalEnd::Failed(DisposalError::RemoveFailed))
            },
            (disposal, _) => disposal,
        }
    }

    /// Decides what is to be done with a file of this kind.
    fn decide(config: &Config, kind: FileKind) -> (disposal: Self)
        ensures
            disposal@ == chosen(*config, kind),
    {
        match config.action_for(kind) {
            FileAction::Skip => Disposal::Finished(DisposalEnd::Skipped),
            FileAction::Delete => {
                if config.dry_run {
                    Disposal::Finished(DisposalEnd::Deleted)
                } else {
                    Disposal::Deleting
                }
            },
            FileAction::Move => {
                if config.dir_for(kind).is_none() {
                    Disposal::Finished(DisposalEnd::Failed(DisposalError::NoTargetDir))
                } else if config.dry_run {
                    Disposal::Finished(DisposalEnd::Moved)
                } else {
                    Disposal::Locating
                }
            },
        }
    }

    /// Decides where the file is moved to.
    fn place(config: &Config, kind: FileKind, source: PathBuf) -> (disposal: Self)
        ensures
            disposal@ == placed(*config, kind, buf_parts(&source)),
    {
        match config.dir_for(kind) {
            None => Disposal::Finished(DisposalEnd::Failed(DisposalError::NoTargetDir)),
            Some(dir) => {
                let found = recreate_subtree(
                    borrow_path(&config.video_dir),
                    borrow_path(&source),
                    borrow_path(dir),
                );
                match found {
                    Ok(destination) => Disposal::Preparing(destination),
                    Err(error) => {
                        Disposal::Finished(DisposalEnd::Failed(DisposalError::NoPlace(error)))
                    },
                }
            },
        }
    }
}

/// The disposal after all of `replies`, if each is a reply to what the disposal then waits for.
pub open spec fn disposal_after(
    config: Config,
    kind: FileKind,
    replies: Seq<ReplyView>,
) -> Option<DisposalView>
    decreases replies.len(),
{
    if replies.len() == 0 {
        Some(DisposalView::Checking)
    } else {
        match disposal_after(config, kind, replies.drop_last()) {
            Some(disposal) => if disposal.accepts(replies.last()) {
                Some(disposal.after(config, kind, replies.last()))
            } else {
                None
            },
            None => None,
        }
    }
}

/// Which file a disposal waits to change, and what it has done before: nothing is changed in a dry
/// run or if the file is to be skipped, and nothing is moved that is to be deleted.
proof fn lemma_disposal_states(config: Config, kind: FileKind, replies: Seq<ReplyView>)
    requires
        disposal_after(config, kind, replies) is Some,
    ensures
        ({
            let action = config.action(kind);
            match disposal_after(config, kind, replies).unwrap() {
                DisposalView::Checking => replies.len() == 0,
                DisposalView::Deleting => !config.dry_run && action == FileAction::Delete
                    && replies.len() == 1,
                DisposalView::Locating => !config.dry_run && action == FileAction::Move
                    && config.target_dir(kind) is Some && replies.len() == 1,
                DisposalView::Preparing { .. } => !config.dry_run && action == FileAction::Move
                    && replies.len() == 2,
                DisposalView::Copying { .. } => !config.dry_run && action == FileAction::Move
                    && replies.len() == 3,
                DisposalView::Removing => !config.dry_run && action == FileAction::Move
                    && replies.len() == 4,
                DisposalView::Finished(_) => 1 <= replies.len() <= 5,
            }
        }),
    decreases replies.len(),
{
    if replies.len() > 0 {
        lemma_disposal_states(config, kind, replies.drop_last());
    }
}

/// Neither a dry run nor the disposal of a file that is to be skipped ever alters a file.
pub proof fn law_disposal_alters_nothing(config: Config, kind: FileKind, replies: Seq<ReplyView>)
    requires
        config.dry_run || config.action(kind) == FileAction::Skip,
        disposal_after(config, kind, replies) is Some,
    ensures
        disposal_after(config, kind, replies).unwrap().pending() matches Some(request)
            ==> !request.alters(),
{
    lemma_disposal_states(config, kind, replies);
}

/// A file that is to be moved is removed only right after it was copied.
pub proof fn law_moved_file_is_copied_first(
    config: Config,
    kind: FileKind,
    replies: Seq<ReplyView>,
)
    requires
        config.action(kind) == FileAction::Move,
        disposal_after(config, kind, replies) matches Some(disposal) && disposal.pending() == Some(
            RequestView::RemoveFile,
        ),
    ensures
        replies.len() > 0,
        replies.last() == ReplyView::Completed,
        disposal_after(config, kind, replies.drop_last()) matches Some(earlier) && (
        earlier.pending() matches Some(RequestView::CopyTo(source, _)) && source == CopySource::File),
{
    lemma_disposal_states(config, kind, replies);
    lemma_disposal_states(config, kind, replies.drop_last());
}

/// A file is copied to the place that it has below the video directory, below the directory for
/// files of its kind.
pub proof fn law_moved_file_keeps_its_place(
    config: Config,
    kind: FileKind,
    replies: Seq<ReplyView>,
    file: Seq<PathPart>,
)
    requires
        disposal_after(config, kind, replies) matches Some(disposal) && disposal.pending() == Some(
            RequestView::CopyTo(CopySource::File, file),
        ),
    ensures
        replies.len() == 3,
        replies[1] matches ReplyView::Located(source) && config.target_dir(kind) matches Some(dir)
            && buf_parts(&config.video_dir).is_prefix_of(source) && file == relocated(
            buf_parts(&config.video_dir),
            source,
            buf_parts(&dir),
        ),
{
    lemma_disposal_states(config, kind, replies);
    let prepared = replies.drop_last();
    let located = prepared.drop_last();
    lemma_disposal_states(config, kind, prepared);
    lemma_disposal_states(config, kind, located);
    assert(prepared.last() == replies[1]);
}

/// Every disposal ends, after no more than five replies.
pub proof fn law_disposal_ends(config: Config, kind: FileKind, replies: Seq<ReplyView>)
    requires
        disposal_after(config, kind, replies) is Some,
    ensures
        replies.len() <= 5,
        replies.len() == 5 ==> disposal_after(config, kind, replies).unwrap() is Finished,
{
    lemma_disposal_states(config, kind, replies);
}

/// Where the file whose canonical path is `source` belongs below `dir`: at the place that it has
/// below the video directory.
pub open spec fn place_below(config: Config, source: Seq<PathPart>, dir: Seq<PathPart>) -> Seq<
    PathPart,
> {
    relocated(buf_parts(&config.video_dir), source, dir)
}

/// A disposal asks first whether there is a file. A file that is to be deleted is then removed. One
/// that is to be moved is located, given a directory, copied to its place there and then removed.
/// Nothing else is asked for, and nothing of this in a dry run.
pub proof fn law_disposal_requests(
    config: Config,
    kind: FileKind,
    replies: Seq<ReplyView>,
    request: RequestView,
)
    requires
        disposal_after(config, kind, replies) matches Some(disposal) && disposal.pending() == Some(
            request,
        ),
    ensures
        replies.len() <= 4,
        replies.len() == 0 ==> request == RequestView::IsFile,
        replies.len() > 0 ==> !config.dry_run && replies[0] == ReplyView::Answer(true),
        replies.len() == 1 ==> match config.action(kind) {
            FileAction::Delete => request == RequestView::RemoveFile,
            FileAction::Move => request == RequestView::Canonicalize && config.target_dir(
                kind,
            ) is Some,
            FileAction::Skip => false,
        },
        replies.len() > 1 ==> {
            &&& config.action(kind) == FileAction::Move
            &&& config.target_dir(kind) is Some
            &&& replies[1] is Located
            &&& buf_parts(&config.video_dir).is_prefix_of(replies[1]->Located_0)
            &&& ({
                let target = place_below(
                    config,
                    replies[1]->Located_0,
                    buf_parts(&config.target_dir(kind).unwrap()),
                );
                &&& has_parent(target)
                &&& replies.len() == 2 ==> request == RequestView::CreateDirAll(target.drop_last())
                &&& replies.len() == 3 ==> request == RequestView::CopyTo(CopySource::File, target)
                &&& replies.len() == 4 ==> request == RequestView::RemoveFile
            })
        },
        forall|i: int| 2 <= i < replies.len() ==> #[trigger] replies[i] == ReplyView::Completed,
    decreases replies.len(),
{
    lemma_disposal_states(config, kind, replies);
    if replies.len() > 0 {
        let earlier = replies.drop_last();
        let before = disposal_after(config, kind, earlier).unwrap();
        law_disposal_requests(config, kind, earlier, before.pending().unwrap());
        assert(forall|i: int| 0 <= i < earlier.len() ==> #[trigger] replies[i] == earlier[i]);
    }
}

/// How a disposal ends tells what was done. Outside a dry run, a file is deleted exactly if its
/// removal was done, and moved exactly if it was located, given a directory, copied and removed.
/// Each failure is that of what was asked for last.
pub proof fn law_disposal_outcome(
    config: Config,
    kind: FileKind,
    replies: Seq<ReplyView>,
    end: DisposalEnd,
)
    requires
        disposal_after(config, kind, replies) == Some(DisposalView::Finished(end)),
    ensures
        replies.len() > 0,
        replies[0] == ReplyView::Answer(true) <==> end != DisposalEnd::Failed(
            DisposalError::NotAFile,
        ),
        match end {
            DisposalEnd::Skipped => config.action(kind) == FileAction::Skip && replies.len() == 1,
            DisposalEnd::Deleted => config.action(kind) == FileAction::Delete && (if config.dry_run {
                replies.len() == 1
            } else {
                replies.len() == 2 && replies[1] == ReplyView::Completed
            }),
            DisposalEnd::Moved => config.action(kind) == FileAction::Move && config.target_dir(
                kind,
            ) is Some && (if config.dry_run {
                replies.len() == 1
            } else {
                replies.len() == 5 && replies[1] is Located && replies[2] == ReplyView::Completed
                    && replies[3] == ReplyView::Completed && replies[4] == ReplyView::Completed
            }),
            DisposalEnd::Failed(DisposalError::NotAFile) => replies == seq![
                ReplyView::Answer(false),
            ],
            DisposalEnd::Failed(DisposalError::NoTargetDir) => config.action(kind)
                == FileAction::Move && config.target_dir(kind) is None && replies.len() == 1,
            DisposalEnd::Failed(error) => {
                &&& !config.dry_run
                &&& config.action(kind) == (if error == DisposalError::DeleteFailed {
                    FileAction::Delete
                } else {
                    FileAction::Move
                })
                &&& error is NoPlace ==> {
                    &&& replies.len() == 2 && replies[1] is Located
                    &&& config.target_dir(kind) is Some
                    &&& error == DisposalError::NoPlace(SubtreeError::OutsideRoot) <==> !buf_parts(
                        &config.video_dir,
                    ).is_prefix_of(replies[1]->Located_0)
                    &&& error == DisposalError::NoPlace(SubtreeError::NoParent) ==> !has_parent(
                        place_below(
                            config,
                            replies[1]->Located_0,
                            buf_parts(&config.target_dir(kind).unwrap()),
                        ),
                    )
                }
                &&& !(error is NoPlace) ==> replies.last() == ReplyView::Failed
                &&& error == DisposalError::DeleteFailed || error == DisposalError::LocateFailed
                    ==> replies.len() == 2
                &&& error == DisposalError::CreateDirFailed ==> replies.len() == 3
                &&& error == DisposalError::CopyFailed ==> replies.len() == 4
                &&& error == DisposalError::RemoveFailed ==> replies.len() == 5
            },
        },
{
    if replies.len() > 0 {
        let earlier = replies.drop_last();
        let before = disposal_after(config, kind, earlier).unwrap();
        law_disposal_requests(config, kind, earlier, before.pending().unwrap());
        lemma_disposal_states(config, kind, earlier);
        assert(forall|i: int| 0 <= i < earlier.len() ==> #[trigger] replies[i] == earlier[i]);
        if replies.len() == 1 {
            assert(replies =~= seq![replies[0]]);
        }
    }
}

/// A file that is to be deleted, and can be, is: outside a dry run, whatever its kind, its removal
/// is asked for, and once that is done, the disposal has ended.
pub proof fn law_deletion_removes_the_file(config: Config, kind: FileKind)
    requires
        !config.dry_run,
        config.action(kind) == FileAction::Delete,
    ensures
        ({
            let found = DisposalView::Checking.after(config, kind, ReplyView::Answer(true));
            &&& found.pending() == Some(RequestView::RemoveFile)
            &&& found.after(config, kind, ReplyView::Completed) == DisposalView::Finished(
                DisposalEnd::Deleted,
            )
        }),
{
}

/// A disposal starts with nothing done, and there is something left to do exactly until it has
/// ended.
pub proof fn law_disposal_starts_afresh(disposal: Disposal, any: DisposalView)
    requires
        call_ensures(Disposal::start, (), disposal),
    ensures
        disposal@.pending() == Some(RequestView::IsFile),
        any.pending() is None <==> any is Finished,
{
}

} // verus!
