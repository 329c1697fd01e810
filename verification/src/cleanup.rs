//! The removal of symlinks and empty directories.

use vstd::prelude::*;

use crate::config::Config;
use crate::requests::{request_view, Reply, ReplyView, Request, RequestView};

verus! {

/// How the handling of a symlink ended.
#[derive(Clone, Copy, Debug, PartialEq, Eq, Structural)]
pub enum SymlinkEnd {
    /// Symlinks are not removed.
    Skipped,
    /// The symlink is removed, or would be but for a dry run.
    Removed,
    /// It is no symlink.
    NotASymlink,
    /// The symlink could not be removed.
    RemoveFailed,
}

/// The handling of a symlink, and how far it has come.
#[derive(Clone, Copy, Debug, PartialEq, Eq, Structural)]
pub enum SymlinkRemoval {
    Checking,
    Removing,
    Finished(SymlinkEnd),
}

impl SymlinkRemoval {
    /// What the handling waits for.
    pub open spec fn pending(self) -> Option<RequestView> {
        match self {
            SymlinkRemoval::Checking => Some(RequestView::IsSymlink),
            SymlinkRemoval::Removing => Some(RequestView::RemoveFile),
            SymlinkRemoval::Finished(_) => None,
        }
    }

    /// Whether `reply` is a reply to what the handling waits for.
    pub open spec fn accepts(self, reply: ReplyView) -> bool {
        self.pending() matches Some(request) && request.answered_by(reply)
    }

    /// The handling after `reply`.
    pub open spec fn after(self, config: Config, reply: ReplyView) -> Self {
        match (self, reply) {
            (SymlinkRemoval::Checking, ReplyView::Answer(true)) => if !config.remove_symlinks {
                SymlinkRemoval::Finished(SymlinkEnd::Skipped)
            } else if config.dry_run {
                SymlinkRemoval::Finished(SymlinkEnd::Removed)
            } else {
                SymlinkRemoval::Removing
            },
            (SymlinkRemoval::Checking, _) => SymlinkRemoval::Finished(SymlinkEnd::NotASymlink),
            (SymlinkRemoval::Removing, ReplyView::Completed) => SymlinkRemoval::Finished(
                SymlinkEnd::Removed,
            ),
            (SymlinkRemoval::Removing, _) => SymlinkRemoval::Finished(SymlinkEnd::RemoveFailed),
            (SymlinkRemoval::Finished(_), _) => self,
        }
    }

    /// Starts to handle a symlink.
    pub fn start() -> (removal: Self)
        ensures
            removal == SymlinkRemoval::Checking,
    {
        SymlinkRemoval::Checking
    }

    /// What has to be done next, or `None` once the handling has ended.
    pub fn request(&self) -> (request: Option<Request<'static>>)
        ensures
            request_view(request) == self.pending(),
    {
        match self {
            SymlinkRemoval::Checking => Some(Request::IsSymlink),
            SymlinkRemoval::Removing => Some(Request::RemoveFile),
            SymlinkRemoval::Finished(_) => None,
        }
    }

    /// Takes what came of the last request.
    pub fn advance(self, config: &Config, reply: Reply) -> (removal: Self)
        requires
            self.accepts(reply@),
        ensures
            removal == self.after(*config, reply@),
    {
        match (self, reply) {
            (SymlinkRemoval::Checking, Reply::Answer(is_symlink)) => {
                if !is_symlink {
                    SymlinkRemoval::Finished(SymlinkEnd::NotASymlink)
                } else if !config.remove_symlinks {
                    SymlinkRemoval::Finished(SymlinkEnd::Skipped)
                } else if config.dry_run {
                    SymlinkRemoval::Finished(SymlinkEnd::Removed)
                } else {
                    SymlinkRemoval::Removing
                }
            },
            (SymlinkRemoval::Removing, Reply::Completed) => {
                SymlinkRemoval::Finished(SymlinkEnd::Removed)
            },
            (SymlinkRemoval::Removing, _) => SymlinkRemoval::Finished(SymlinkEnd::RemoveFailed),
            (removal, _) => removal,
        }
    }
}

/// How the handling of a directory ended.
#[derive(Clone, Copy, Debug, PartialEq, Eq, Structural)]
pub enum DirEnd {
    /// Empty directories are not removed.
    Skipped,
    /// The directory holds something.
    NotEmpty,
    /// The directory is removed, or would be but for a dry run.
    Removed,
    /// It is no directory.
    NotADir,
    /// The directory could not be read.
    ReadFailed,
    /// The directory could not be removed.
    RemoveFailed,
}

/// The handling of a directory, and how far it has come.
#[derive(Clone, Copy, Debug, PartialEq, Eq, Structural)]
pub enum DirRemoval {
    Checking,
    Reading,
    Removing,
    Finished(DirEnd),
}

impl DirRemoval {
    /// What the handling waits for.
    pub open spec fn pending(self) -> Option<RequestView> {
        match self {
            DirRemoval::Checking => Some(RequestView::IsDir),
            DirRemoval::Reading => Some(RequestView::IsEmptyDir),
            DirRemoval::Removing => Some(RequestView::RemoveDir),
            DirRemoval::Finished(_) => None,
        }
    }

    /// Whether `reply` is a reply to what the handling waits for.
    pub open spec fn accepts(self, reply: ReplyView) -> bool {
        self.pending() matches Some(request) && request.answered_by(reply)
    }

    /// The handling after `reply`.
    pub open spec fn after(self, config: Config, reply: ReplyView) -> Self {
        match (self, reply) {
            (DirRemoval::Checking, ReplyView::Answer(true)) => if config.remove_empty_dirs {
                DirRemoval::Reading
            } else {
                DirRemoval::Finished(DirEnd::Skipped)
            },
            (DirRemoval::Checking, _) => DirRemoval::Finished(DirEnd::NotADir),
            (DirRemoval::Reading, ReplyView::Answer(true)) => if config.dry_run {
                DirRemoval::Finished(DirEnd::Removed)
            } else {
                DirRemoval::Removing
            },
            (DirRemoval::Reading, ReplyView::Answer(false)) => DirRemoval::Finished(
                DirEnd::NotEmpty,
            ),
            (DirRemoval::Reading, _) => DirRemoval::Finished(DirEnd::ReadFailed),
            (DirRemoval::Removing, ReplyView::Completed) => DirRemoval::Finished(DirEnd::Removed),
            (DirRemoval::Removing, _) => DirRemoval::Finished(DirEnd::RemoveFailed),
            (DirRemoval::Finished(_), _) => self,
        }
    }

    /// Starts to handle a directory.
    pub fn start() -> (removal: Self)
        ensures
            removal == DirRemoval::Checking,
    {
        DirRemoval::Checking
    }

    /// What has to be done next, or `None` once the handling has ended.
    pub fn request(&self) -> (request: Option<Request<'static>>)
        ensures
            request_view(request) == self.pending(),
    {
        match self {
            DirRemoval::Checking => Some(Request::IsDir),
            DirRemoval::Reading => Some(Request::IsEmptyDir),
            DirRemoval::Removing => Some(Request::RemoveDir),
            DirRemoval::Finished(_) => None,
        }
    }

    /// Takes what came of the last request.
    pub fn advance(self, config: &Config, reply: Reply) -> (removal: Self)
        requires
            self.accepts(reply@),
        ensures
            removal == self.after(*config, reply@),
    {
        match (self, reply) {
            (DirRemoval::Checking, Reply::Answer(is_dir)) => {
                if !is_dir {
                    DirRemoval::Finished(DirEnd::NotADir)
                } else if !config.remove_empty_dirs {
                    DirRemoval::Finished(DirEnd::Skipped)
                } else {
                    DirRemoval::Reading
                }
            },
            (DirRemoval::Reading, Reply::Answer(is_empty)) => {
                if !is_empty {
                    DirRemoval::Finished(DirEnd::NotEmpty)
                } else if config.dry_run {
                    DirRemoval::Finished(DirEnd::Removed)
                } else {
                    DirRemoval::Removing
                }
            },
            (DirRemoval::Reading, _) => DirRemoval::Finished(DirEnd::ReadFailed),
            (DirRemoval::Removing, Reply::Completed) => DirRemoval::Finished(DirEnd::Removed),
            (DirRemoval::Removing, _) => DirRemoval::Finished(DirEnd::RemoveFailed),
            (removal, _) => removal,
        }
    }
}

/// The handling of a symlink after all of `replies`, if each is a reply to what it then waits for.
pub open spec fn symlink_after(config: Config, replies: Seq<ReplyView>) -> Option<SymlinkRemoval>
    decreases replies.len(),
{
    if replies.len() == 0 {
        Some(SymlinkRemoval::Checking)
    } else {
        match symlink_after(config, replies.drop_last()) {
            Some(removal) => if removal.accepts(replies.last()) {
                Some(removal.after(config, replies.last()))
            } else {
                None
            },
            None => None,
        }
    }
}

/// The handling of a directory after all of `replies`, if each is a reply to what it then waits
/// for.
pub open spec fn dir_after(config: Config, replies: Seq<ReplyView>) -> Option<DirRemoval>
    decreases replies.len(),
{
    if replies.len() == 0 {
        Some(DirRemoval::Checking)
    } else {
        match dir_after(config, replies.drop_last()) {
            Some(removal) => if removal.accepts(replies.last()) {
                Some(removal.after(config, replies.last()))
            } else {
                None
            },
            None => None,
        }
    }
}

/// A symlink is removed only if that is asked for, not in a dry run, and only after it was seen to
/// be a symlink.
pub proof fn law_symlink_removed_on_demand(config: Config, replies: Seq<ReplyView>)
    requires
        symlink_after(config, replies) matches Some(removal) && (removal.pending() matches Some(
            request,
        ) && request.alters()),
    ensures
        config.remove_symlinks,
        !config.dry_run,
        replies == seq![ReplyView::Answer(true)],
{
    reveal_with_fuel(symlink_after, 3);
    assert(replies =~= seq![ReplyView::Answer(true)]);
}

/// A directory is removed only if that is asked for, not in a dry run, and only after it was seen
/// to be a directory and to be empty.
pub proof fn law_dir_removed_on_demand(config: Config, replies: Seq<ReplyView>)
    requires
        dir_after(config, replies) matches Some(removal) && (removal.pending() matches Some(
            request,
        ) && request.alters()),
    ensures
        config.remove_empty_dirs,
        !config.dry_run,
        replies == seq![ReplyView::Answer(true), ReplyView::Answer(true)],
{
    reveal_with_fuel(dir_after, 4);
    assert(replies =~= seq![ReplyView::Answer(true), ReplyView::Answer(true)]);
}

/// The handling of a symlink asks first whether it is one. If it is to be removed, and this is no
/// dry run, it asks for that next. It asks for nothing else.
pub proof fn law_symlink_requests(config: Config, replies: Seq<ReplyView>)
    requires
        symlink_after(config, replies) is Some,
    ensures
        ({
            let pending = symlink_after(config, replies).unwrap().pending();
            &&& replies.len() == 0 ==> pending == Some(RequestView::IsSymlink)
            &&& replies.len() == 1 ==> (pending == Some(RequestView::RemoveFile) <==> replies[0]
                == ReplyView::Answer(true) && config.remove_symlinks && !config.dry_run)
            &&& replies.len() == 1 && pending != Some(RequestView::RemoveFile) ==> pending is None
            &&& replies.len() >= 2 ==> pending is None
            &&& replies.len() <= 2
        }),
{
    reveal_with_fuel(symlink_after, 4);
}

/// How the handling of a symlink ends tells what was done: it was removed exactly if that was asked
/// for and done, or is only left out in a dry run.
pub proof fn law_symlink_outcome(config: Config, replies: Seq<ReplyView>, end: SymlinkEnd)
    requires
        symlink_after(config, replies) == Some(SymlinkRemoval::Finished(end)),
    ensures
        match end {
            SymlinkEnd::NotASymlink => replies == seq![ReplyView::Answer(false)],
            SymlinkEnd::Skipped => !config.remove_symlinks && replies == seq![
                ReplyView::Answer(true),
            ],
            SymlinkEnd::Removed => config.remove_symlinks && (if config.dry_run {
                replies == seq![ReplyView::Answer(true)]
            } else {
                replies == seq![ReplyView::Answer(true), ReplyView::Completed]
            }),
            SymlinkEnd::RemoveFailed => config.remove_symlinks && !config.dry_run && replies
                == seq![ReplyView::Answer(true), ReplyView::Failed],
        },
{
    reveal_with_fuel(symlink_after, 4);
    law_symlink_requests(config, replies);
    if replies.len() == 1 {
        assert(replies =~= seq![replies[0]]);
    } else {
        assert(replies =~= seq![replies[0], replies[1]]);
        assert(replies.drop_last() =~= seq![replies[0]]);
    }
}

/// The handling of a directory asks first whether it is one. If empty ones are to be removed, it
/// asks next whether it is empty, and then, if this is no dry run, for its removal. It asks for
/// nothing else.
pub proof fn law_dir_requests(config: Config, replies: Seq<ReplyView>)
    requires
        dir_after(config, replies) is Some,
    ensures
        ({
            let pending = dir_after(config, replies).unwrap().pending();
            &&& replies.len() == 0 ==> pending == Some(RequestView::IsDir)
            &&& replies.len() == 1 ==> pending == (if replies[0] == ReplyView::Answer(true)
                && config.remove_empty_dirs {
                Some(RequestView::IsEmptyDir)
            } else {
                None
            })
            &&& replies.len() == 2 ==> pending == (if replies[1] == ReplyView::Answer(true)
                && !config.dry_run {
                Some(RequestView::RemoveDir)
            } else {
                None
            })
            &&& replies.len() >= 3 ==> pending is None
            &&& replies.len() <= 3
        }),
{
    reveal_with_fuel(dir_after, 5);
    if replies.len() >= 2 {
        assert(replies.drop_last().drop_last() =~= replies.take(replies.len() - 2));
    }
}

/// How the handling of a directory ends tells what was done: it was removed exactly if it was found
/// empty and its removal was done, or is only left out in a dry run.
pub proof fn law_dir_outcome(config: Config, replies: Seq<ReplyView>, end: DirEnd)
    requires
        dir_after(config, replies) == Some(DirRemoval::Finished(end)),
    ensures
        match end {
            DirEnd::NotADir => replies == seq![ReplyView::Answer(false)],
            DirEnd::Skipped => !config.remove_empty_dirs && replies == seq![
                ReplyView::Answer(true),
            ],
            DirEnd::NotEmpty => config.remove_empty_dirs && replies == seq![
                ReplyView::Answer(true),
                ReplyView::Answer(false),
            ],
            DirEnd::ReadFailed => config.remove_empty_dirs && replies == seq![
                ReplyView::Answer(true),
                ReplyView::Failed,
            ],
            DirEnd::Removed => config.remove_empty_dirs && (if config.dry_run {
                replies == seq![ReplyView::Answer(true), ReplyView::Answer(true)]
            } else {
                replies == seq![
                    ReplyView::Answer(true),
                    ReplyView::Answer(true),
                    ReplyView::Completed,
                ]
            }),
            DirEnd::RemoveFailed => config.remove_empty_dirs && !config.dry_run && replies == seq![
                ReplyView::Answer(true),
                ReplyView::Answer(true),
                ReplyView::Failed,
            ],
        },
{
    reveal_with_fuel(dir_after, 5);
    law_dir_requests(config, replies);
    if replies.len() == 1 {
        assert(replies =~= seq![replies[0]]);
    } else if replies.len() == 2 {
        assert(replies =~= seq![replies[0], replies[1]]);
        assert(replies.drop_last() =~= seq![replies[0]]);
    } else {
        assert(replies =~= seq![replies[0], replies[1], replies[2]]);
        assert(replies.drop_last() =~= seq![replies[0], replies[1]]);
        assert(replies.drop_last().drop_last() =~= seq![replies[0]]);
    }
}

/// A handling starts with nothing done, and there is something left to do exactly until it has
/// ended.
pub proof fn law_removals_start_afresh(
    symlink: SymlinkRemoval,
    dir: DirRemoval,
    any_symlink: SymlinkRemoval,
    any_dir: DirRemoval,
)
    requires
        call_ensures(SymlinkRemoval::start, (), symlink),
        call_ensures(DirRemoval::start, (), dir),
    ensures
        symlink.pending() == Some(RequestView::IsSymlink),
        dir.pending() == Some(RequestView::IsDir),
        any_symlink.pending() is None <==> any_symlink is Finished,
        any_dir.pending() is None <==> any_dir is Finished,
{
}

} // verus!
