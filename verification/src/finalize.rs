//! What happens to a finished transcode, and to the video that it was made from.

use std::path::{Path, PathBuf};

use vstd::prelude::*;
use vstd::string::*;

use crate::config::{dir_parts, Config, FileAction};
use crate::paths::{
    borrow_path, buf_parts, dot_stem, eq_as_path, file_name, has_parent, law_replaced_extension_fixpoint,
    law_replaced_extension_is_read_back, path_parts, path_with_extension, plain_extension,
    recreate_subtree, relocated, replaced_extension, stem_of, valid_parts, AsPath, Destination,
    PathPart, SubtreeError,
};
use crate::requests::{request_view, CopySource, Reply, ReplyView, Request, RequestView};
use crate::video::{AnalyzeError, VideoCodec, VideoFile};

verus! {

/// Why a transcode could not be put in place.
#[derive(Clone, Copy, Debug, PartialEq, Eq, Structural)]
pub enum FinalizeError {
    /// The transcode is no usable video.
    AnalyzeFailed(AnalyzeError),
    /// The transcode did not result in an AV1 video stream.
    NotAv1(VideoCodec),
    /// The transcode is to be moved, but there is no directory to move it to.
    NoTargetDir,
    /// The canonical path of the original could not be found.
    LocateFailed,
    /// The original has no place in the directory that the transcode is to be moved to.
    NoPlace(SubtreeError),
    /// The directory that the transcode is to be moved to could not be created.
    CreateDirFailed,
    /// The transcode could not be copied.
    CopyFailed,
    /// The transcode was copied, but the original could not be removed.
    RemoveFailed,
}

/// How a finalization ended.
#[derive(Clone, Copy, Debug, PartialEq, Eq, Structural)]
pub enum FinalizeEnd {
    /// The transcode is not kept.
    Discarded,
    /// The transcode takes the place of the original, or would but for a dry run.
    Clobbered,
    /// The transcode is put beside the original's tree, or would be but for a dry run.
    Placed,
    Failed(FinalizeError),
}

/// The finalization of a transcode, and how far it has come. What it asks to be copied is the
/// transcode; all else that it asks for concerns the original.
#[derive(Debug)]
pub enum Finalization {
    Clobbering { file: PathBuf },
    /// The transcode has been copied beside the original.
    RemovingOriginal,
    Locating,
    Preparing(Destination),
    Copying { file: PathBuf },
    Finished(FinalizeEnd),
}

/// The mathematical content of a [`Finalization`].
pub enum FinalizationView {
    Clobbering { file: Seq<PathPart> },
    RemovingOriginal,
    Locating,
    Preparing { file: Seq<PathPart>, dir: Seq<PathPart> },
    Copying { file: Seq<PathPart> },
    Finished(FinalizeEnd),
}

impl View for Finalization {
    type V = FinalizationView;

    open spec fn view(&self) -> FinalizationView {
        match *self {
            Finalization::Clobbering { file } => FinalizationView::Clobbering {
                file: buf_parts(&file),
            },
            Finalization::RemovingOriginal => FinalizationView::RemovingOriginal,
            Finalization::Locating => FinalizationView::Locating,
            Finalization::Preparing(destination) => FinalizationView::Preparing {
                file: buf_parts(&destination.file),
                dir: buf_parts(&destination.dir),
            },
            Finalization::Copying { file } => FinalizationView::Copying { file: buf_parts(&file) },
            Finalization::Finished(end) => FinalizationView::Finished(end),
        }
    }
}

/// `mkv`, the extension of a transcode that clobbers its original.
pub open spec fn mkv() -> Seq<u8> {
    seq![109u8, 107u8, 118u8]
}

/// A finalization that failed.
pub open spec fn failed(error: FinalizeError) -> FinalizationView {
    FinalizationView::Finished(FinalizeEnd::Failed(error))
}

/// What is to be done with the transcode of the video at `original`, of which a probe has found
/// out `transcode`.
pub open spec fn started(
    config: Config,
    original: Seq<PathPart>,
    transcode: Result<VideoCodec, AnalyzeError>,
) -> FinalizationView {
    match transcode {
        Err(error) => failed(FinalizeError::AnalyzeFailed(error)),
        Ok(codec) => if codec != VideoCodec::AV1 {
            failed(FinalizeError::NotAv1(codec))
        } else {
            match config.transcoded_video_action {
                FileAction::Skip => FinalizationView::Finished(FinalizeEnd::Discarded),
                FileAction::Delete => if config.dry_run {
                    FinalizationView::Finished(FinalizeEnd::Clobbered)
                } else {
                    FinalizationView::Clobbering { file: replaced_extension(original, mkv()) }
                },
                FileAction::Move => if config.transcoded_video_dir is None {
                    failed(FinalizeError::NoTargetDir)
                } else if config.dry_run {
                    FinalizationView::Finished(FinalizeEnd::Placed)
                } else {
                    FinalizationView::Locating
                },
            }
        },
    }
}

/// Whether a finalization can start like this. Where a transcode that clobbers its original is
/// copied to is left open for names like `..mp4`.
pub open spec fn can_start(
    config: Config,
    original: Seq<PathPart>,
    transcode: Result<VideoCodec, AnalyzeError>,
    first: FinalizationView,
) -> bool {
    ||| first == started(config, original, transcode)
    ||| dot_stem(original) && first is Clobbering && started(
        config,
        original,
        transcode,
    ) is Clobbering
}

/// Where the transcode of the video whose canonical path is `source` is moved to: the place that
/// the video has below the video directory, below the directory for transcodes.
pub open spec fn placed(config: Config, source: Seq<PathPart>) -> FinalizationView {
    match dir_parts(config.transcoded_video_dir) {
        None => failed(FinalizeError::NoTargetDir),
        Some(dir) => {
            let root = buf_parts(&config.video_dir);
            let target = relocated(root, source, dir);
            if !root.is_prefix_of(source) {
                failed(FinalizeError::NoPlace(SubtreeError::OutsideRoot))
            } else if !has_parent(target) {
                failed(FinalizeError::NoPlace(SubtreeError::NoParent))
            } else {
                FinalizationView::Preparing { file: target, dir: target.drop_last() }
            }
        },
    }
}

impl FinalizationView {
    /// What the finalization waits for.
    pub open spec fn pending(self) -> Option<RequestView> {
        match self {
            FinalizationView::Clobbering { file } | FinalizationView::Copying { file } => Some(
                RequestView::CopyTo(CopySource::Transcode, file),
            ),
            FinalizationView::RemovingOriginal => Some(RequestView::RemoveFile),
            FinalizationView::Locating => Some(RequestView::Canonicalize),
            FinalizationView::Preparing { dir, .. } => Some(RequestView::CreateDirAll(dir)),
            FinalizationView::Finished(_) => None,
        }
    }

    /// Whether `reply` is a reply to what the finalization waits for.
    pub open spec fn accepts(self, reply: ReplyView) -> bool {
        self.pending() matches Some(request) && request.answered_by(reply)
    }

    /// The finalization after `reply`.
    pub open spec fn after(
        self,
        config: Config,
        original: Seq<PathPart>,
        reply: ReplyView,
    ) -> Self {
        match (self, reply) {
            (FinalizationView::Clobbering { file }, ReplyView::Completed) => if file == original {
                FinalizationView::Finished(FinalizeEnd::Clobbered)
            } else {
                FinalizationView::RemovingOriginal
            },
            (FinalizationView::Clobbering { .. }, _) => failed(FinalizeError::CopyFailed),
            (FinalizationView::RemovingOriginal, ReplyView::Completed) => {
                FinalizationView::Finished(FinalizeEnd::Clobbered)
            },
            (FinalizationView::RemovingOriginal, _) => failed(FinalizeError::RemoveFailed),
            (FinalizationView::Locating, ReplyView::Located(source)) => placed(config, source),
            (FinalizationView::Locating, _) => failed(FinalizeError::LocateFailed),
            (FinalizationView::Preparing { file, .. }, ReplyView::Completed) => {
                FinalizationView::Copying { file }
            },
            (FinalizationView::Preparing { .. }, _) => failed(FinalizeError::CreateDirFailed),
            (FinalizationView::Copying { .. }, ReplyView::Completed) => {
                FinalizationView::Finished(FinalizeEnd::Placed)
            },
            (FinalizationView::Copying { .. }, _) => failed(FinalizeError::CopyFailed),
            (FinalizationView::Finished(_), _) => self,
        }
    }
}

/// The path beside `original` that a transcode is given which clobbers it. It is left open for
/// names like `..mp4`.
pub fn clobber_path(original: &Path) -> (file: PathBuf)
    ensures
        !dot_stem(path_parts(original)) ==> buf_parts(&file) == replaced_extension(
            path_parts(original),
            mkv(),
        ),
{
    let ext = "mkv";
    proof {
        reveal_strlit("mkv");
        assert(is_ascii(ext));
        assert(ext.spec_bytes() =~= mkv());
    }
    path_with_extension(original, ext)
}

/// What was found out about the codec of a transcode.
pub open spec fn probed_codec<Q: AsPath>(
    transcode: Result<VideoFile<Q>, AnalyzeError>,
) -> Result<VideoCodec, AnalyzeError> {
    match transcode {
        Ok(video) => Ok(video.video_codec),
        Err(error) => Err(error),
    }
}

impl Finalization {
    /// Decides what is to be done with the transcode of `original`.
    pub fn start<P: AsPath, Q: AsPath>(
        config: &Config,
        original: &VideoFile<P>,
        transcode: &Result<VideoFile<Q>, AnalyzeError>,
    ) -> (finalization: Self)
        ensures
            can_start(
                *config,
                original.path.parts(),
                probed_codec(*transcode),
                finalization@,
            ),
    {
        let video = match transcode {
            Ok(video) => video,
            Err(error) => {
                return Finalization::Finished(
                    FinalizeEnd::Failed(FinalizeError::AnalyzeFailed(*error)),
                );
            },
        };
        if video.video_codec != VideoCodec::AV1 {
            return Finalization::Finished(
                FinalizeEnd::Failed(FinalizeError::NotAv1(video.video_codec)),
            );
        }
        match config.transcoded_video_action {
            FileAction::Skip => Finalization::Finished(FinalizeEnd::Discarded),
            FileAction::Delete => {
                if config.dry_run {
                    Finalization::Finished(FinalizeEnd::Clobbered)
                } else {
                    Finalization::Clobbering { file: clobber_path(original.path()) }
                }
            },
            FileAction::Move => {
                if config.transcoded_video_dir.is_none() {
                    Finalization::Finished(FinalizeEnd::Failed(FinalizeError::NoTargetDir))
                } else if config.dry_run {
                    Finalization::Finished(FinalizeEnd::Placed)
                } else {
                    Finalization::Locating
                }
            },
        }
    }

    /// What has to be done next, or `None` once the finalization has ended.
    pub fn request(&self) -> (request: Option<Request<'_>>)
        ensures
            request_view(request) == self@.pending(),
    {
        match self {
            Finalization::Clobbering { file } | Finalization::Copying { file } => Some(
                Request::CopyTo(CopySource::Transcode, borrow_path(file)),
            ),
            Finalization::RemovingOriginal => Some(Request::RemoveFile),
            Finalization::Locating => Some(Request::Canonicalize),
            Finalization::Preparing(destination) => Some(
                Request::CreateDirAll(borrow_path(&destination.dir)),
            ),
            Finalization::Finished(_) => None,
        }
    }

    /// Takes what came of the last request.
    pub fn advance<P: AsPath>(
        self,
        config: &Config,
        original: &VideoFile<P>,
        reply: Reply,
    ) -> (finalization: Self)
        requires
            self@.accepts(reply@),
        ensures
            finalization@ == self@.after(*config, original.path.parts(), reply@),
    {
        match (self, reply) {
            (Finalization::Clobbering { file }, Reply::Completed) => {
                if eq_as_path(&file, &original.path) {
                    Finalization::Finished(FinalizeEnd::Clobbered)
                } else {
                    Finalization::RemovingOriginal
                }
            },
            (Finalization::Clobbering { .. }, _) | (Finalization::Copying { .. }, Reply::Failed) => {
                Finalization::Finished(FinalizeEnd::Failed(FinalizeError::CopyFailed))
            },
            (Finalization::RemovingOriginal, Reply::Completed) => {
                Finalization::Finished(FinalizeEnd::Clobbered)
            },
            (Finalization::RemovingOriginal, _) => {
                Finalization::Finished(FinalizeEnd::Failed(FinalizeError::RemoveFailed))
            },
            (Finalization::Locating, Reply::Located(source)) => Self::place(config, source),
            (Finalization::Locating, _) => {
                Finalization::Finished(FinalizeEnd::Failed(FinalizeError::LocateFailed))
            },
            (Finalization::Preparing(destination), Reply::Completed) => {
                Finalization::Copying { file: destination.file }
            },
            (Finalization::Preparing(_), _) => {
                Finalization::Finished(FinalizeEnd::Failed(FinalizeError::CreateDirFailed))
            },
            (Finalization::Copying { .. }, _) => Finalization::Finished(FinalizeEnd::Placed),
            (finalization, _) => finalization,
        }
    }

    /// Decides where the transcode is moved to.
    fn place(config: &Config, source: PathBuf) -> (finalization: Self)
        ensures
            finalization@ == placed(*config, buf_parts(&source)),
    {
        match &config.transcoded_video_dir {
            None => Finalization::Finished(FinalizeEnd::Failed(FinalizeError::NoTargetDir)),
            Some(dir) => {
                let found = recreate_subtree(
                    borrow_path(&config.video_dir),
                    borrow_path(&source),
                    borrow_path(dir),
                );
                match found {
                    Ok(destination) => Finalization::Preparing(destination),
                    Err(error) => {
                        Finalization::Finished(FinalizeEnd::Failed(FinalizeError::NoPlace(error)))
                    },
                }
            },
        }
    }
}

/// The finalization that started as `first` after all of `replies`, if each is a reply to what it
/// then waits for.
pub open spec fn finalization_after(
    config: Config,
    original: Seq<PathPart>,
    first: FinalizationView,
    replies: Seq<ReplyView>,
) -> Option<FinalizationView>
    decreases replies.len(),
{
    if replies.len() == 0 {
        Some(first)
    } else {
        match finalization_after(config, original, first, replies.drop_last()) {
            Some(finalization) => if finalization.accepts(replies.last()) {
                Some(finalization.after(config, original, replies.last()))
            } else {
                None
            },
            None => None,
        }
    }
}

/// What a finalization has to do with how the tool is set up, and how far it can have come.
proof fn lemma_finalization_states(
    config: Config,
    original: Seq<PathPart>,
    transcode: Result<VideoCodec, AnalyzeError>,
    first: FinalizationView,
    replies: Seq<ReplyView>,
)
    requires
        can_start(config, original, transcode, first),
        finalization_after(config, original, first, replies) is Some,
    ensures
        ({
            let finalization = finalization_after(config, original, first, replies).unwrap();
            let action = config.transcoded_video_action;
            &&& !(finalization is Finished) ==> !config.dry_run && transcode == Ok::<
                _,
                AnalyzeError,
            >(VideoCodec::AV1)
            &&& match finalization {
                FinalizationView::Clobbering { .. } => action == FileAction::Delete
                    && replies.len() == 0,
                FinalizationView::RemovingOriginal => action == FileAction::Delete
                    && replies.len() == 1 && replies.last() == ReplyView::Completed && (
                first matches FinalizationView::Clobbering { file } && file != original),
                FinalizationView::Locating => action == FileAction::Move && replies.len() == 0
                    && config.transcoded_video_dir is Some,
                FinalizationView::Preparing { .. } => action == FileAction::Move && replies.len()
                    == 1,
                FinalizationView::Copying { .. } => action == FileAction::Move && replies.len()
                    == 2,
                FinalizationView::Finished(_) => replies.len() <= 3,
            }
        }),
    decreases replies.len(),
{
    if replies.len() > 0 {
        lemma_finalization_states(config, original, transcode, first, replies.drop_last());
        if replies.len() == 1 {
            assert(replies.drop_last() =~= Seq::<ReplyView>::empty());
        }
    }
}

/// Neither a dry run, nor a transcode that is to be discarded, nor one that is no AV1 video ever
/// alters a file.
pub proof fn law_finalization_alters_nothing(
    config: Config,
    original: Seq<PathPart>,
    transcode: Result<VideoCodec, AnalyzeError>,
    first: FinalizationView,
    replies: Seq<ReplyView>,
)
    requires
        config.dry_run || config.transcoded_video_action == FileAction::Skip || transcode != Ok::<
            _,
            AnalyzeError,
        >(VideoCodec::AV1),
        can_start(config, original, transcode, first),
        finalization_after(config, original, first, replies) is Some,
    ensures
        finalization_after(config, original, first, replies).unwrap().pending() matches Some(
            request,
        ) ==> !request.alters(),
{
    lemma_finalization_states(config, original, transcode, first, replies);
}

/// The original is removed only if its transcode is to clobber it, and only right after the
/// transcode was copied to another path.
pub proof fn law_original_outlives_failed_copy(
    config: Config,
    original: Seq<PathPart>,
    transcode: Result<VideoCodec, AnalyzeError>,
    first: FinalizationView,
    replies: Seq<ReplyView>,
)
    requires
        can_start(config, original, transcode, first),
        finalization_after(config, original, first, replies) matches Some(finalization)
            && finalization.pending() == Some(RequestView::RemoveFile),
    ensures
        config.transcoded_video_action == FileAction::Delete,
        replies == seq![ReplyView::Completed],
        first.pending() matches Some(RequestView::CopyTo(source, file)) && source
            == CopySource::Transcode && file != original,
{
    lemma_finalization_states(config, original, transcode, first, replies);
    assert(replies =~= seq![ReplyView::Completed]);
}

/// A transcode that clobbers its original is copied to the same directory, under the same name but
/// for the extension `mkv`, and to the original's own path exactly if that has this extension. Names
/// like `..mp4` are left out.
pub proof fn law_clobber_path_is_beside_original(
    config: Config,
    original: Seq<PathPart>,
    transcode: Result<VideoCodec, AnalyzeError>,
    file: Seq<PathPart>,
)
    requires
        valid_parts(original),
        file_name(original) is Some,
        !dot_stem(original),
        can_start(config, original, transcode, FinalizationView::Clobbering { file }),
    ensures
        file.drop_last() == original.drop_last(),
        file_name(file) is Some,
        stem_of(file_name(file).unwrap()) == stem_of(file_name(original).unwrap()),
        crate::paths::extension(file) == Some(mkv()),
        file == original <==> crate::paths::extension(original) == Some(mkv()),
{
    assert(plain_extension(mkv())) by {
        assert(mkv().len() == 3);
    }
    law_replaced_extension_is_read_back(original, mkv());
    law_replaced_extension_fixpoint(original, mkv());
}

/// A transcode that is moved is copied to the place that the original has below the video
/// directory, below the directory for transcodes. The original stays.
pub proof fn law_moved_transcode_keeps_place(
    config: Config,
    original: Seq<PathPart>,
    transcode: Result<VideoCodec, AnalyzeError>,
    first: FinalizationView,
    replies: Seq<ReplyView>,
    file: Seq<PathPart>,
)
    requires
        config.transcoded_video_action == FileAction::Move,
        can_start(config, original, transcode, first),
        finalization_after(config, original, first, replies) matches Some(finalization)
            && finalization.pending() == Some(RequestView::CopyTo(CopySource::Transcode, file)),
    ensures
        replies.len() == 2,
        replies[0] matches ReplyView::Located(source) && config.transcoded_video_dir matches Some(
            dir,
        ) && buf_parts(&config.video_dir).is_prefix_of(source) && file == relocated(
            buf_parts(&config.video_dir),
            source,
            buf_parts(&dir),
        ),
{
    lemma_finalization_states(config, original, transcode, first, replies);
    let prepared = replies.drop_last();
    let located = prepared.drop_last();
    lemma_finalization_states(config, original, transcode, first, prepared);
    lemma_finalization_states(config, original, transcode, first, located);
    assert(prepared.last() == replies[0]);
}

/// Every finalization ends, after no more than three replies.
pub proof fn law_finalization_ends(
    config: Config,
    original: Seq<PathPart>,
    transcode: Result<VideoCodec, AnalyzeError>,
    first: FinalizationView,
    replies: Seq<ReplyView>,
)
    requires
        can_start(config, original, transcode, first),
        finalization_after(config, original, first, replies) is Some,
    ensures
        replies.len() <= 3,
        replies.len() == 3 ==> finalization_after(
            config,
            original,
            first,
            replies,
        ).unwrap() is Finished,
{
    lemma_finalization_states(config, original, transcode, first, replies);
}

/// What is put in the place of an original is copied there first: outside a dry run, a finalization
/// starts with the copy of the transcode, or with locating the original, exactly if there is an AV1
/// transcode that is to clobber it, or to be moved and has a directory. All else ends at once.
pub proof fn law_finalization_begins<P: AsPath, Q: AsPath>(
    config: &Config,
    original: &VideoFile<P>,
    transcode: &Result<VideoFile<Q>, AnalyzeError>,
    finalization: Finalization,
)
    requires
        call_ensures(Finalization::start::<P, Q>, (config, original, transcode), finalization),
    ensures
        ({
            let usable = *transcode is Ok && transcode.unwrap().video_codec == VideoCodec::AV1;
            let action = config.transcoded_video_action;
            let pending = finalization@.pending();
            &&& pending is Some <==> usable && !config.dry_run && (action == FileAction::Delete || (
            action == FileAction::Move && config.transcoded_video_dir is Some))
            &&& pending is Some && action == FileAction::Delete ==> (
            pending matches Some(RequestView::CopyTo(source, file)) && source
                == CopySource::Transcode && (!dot_stem(original.path.parts()) ==> file
                == replaced_extension(original.path.parts(), mkv())))
            &&& pending is Some && action == FileAction::Move ==> pending == Some(
                RequestView::Canonicalize,
            )
            &&& pending is None ==> finalization@ == FinalizationView::Finished(
                match *transcode {
                    Err(error) => FinalizeEnd::Failed(FinalizeError::AnalyzeFailed(error)),
                    Ok(video) => if !usable {
                        FinalizeEnd::Failed(FinalizeError::NotAv1(video.video_codec))
                    } else if action == FileAction::Skip {
                        FinalizeEnd::Discarded
                    } else if action == FileAction::Delete {
                        FinalizeEnd::Clobbered
                    } else if config.transcoded_video_dir is None {
                        FinalizeEnd::Failed(FinalizeError::NoTargetDir)
                    } else {
                        FinalizeEnd::Placed
                    },
                },
            )
        }),
{
}

/// A transcode that clobbers its original is copied, and then the original is removed unless the
/// copy has taken its path. One that is moved is copied, behind a directory that is created, to the
/// place that the original has below the video directory. Nothing else is asked for.
pub proof fn law_finalization_requests(
    config: Config,
    original: Seq<PathPart>,
    transcode: Result<VideoCodec, AnalyzeError>,
    first: FinalizationView,
    replies: Seq<ReplyView>,
    request: RequestView,
)
    requires
        can_start(config, original, transcode, first),
        finalization_after(config, original, first, replies) matches Some(finalization)
            && finalization.pending() == Some(request),
    ensures
        !config.dry_run,
        transcode == Ok::<_, AnalyzeError>(VideoCodec::AV1),
        match config.transcoded_video_action {
            FileAction::Skip => false,
            FileAction::Delete => {
                &&& replies.len() == 0 ==> (request matches RequestView::CopyTo(source, file)
                    && source == CopySource::Transcode && (!dot_stem(original) ==> file
                    == replaced_extension(original, mkv())))
                &&& replies.len() == 1 ==> request == RequestView::RemoveFile && replies[0]
                    == ReplyView::Completed
                &&& replies.len() <= 1
            },
            FileAction::Move => {
                &&& config.transcoded_video_dir is Some
                &&& replies.len() == 0 ==> request == RequestView::Canonicalize
                &&& replies.len() > 0 ==> {
                    let target = relocated(
                        buf_parts(&config.video_dir),
                        replies[0]->Located_0,
                        buf_parts(&config.transcoded_video_dir.unwrap()),
                    );
                    &&& replies[0] is Located
                    &&& buf_parts(&config.video_dir).is_prefix_of(replies[0]->Located_0)
                    &&& has_parent(target)
                    &&& replies.len() == 1 ==> request == RequestView::CreateDirAll(
                        target.drop_last(),
                    )
                    &&& replies.len() == 2 ==> replies[1] == ReplyView::Completed && request
                        == RequestView::CopyTo(CopySource::Transcode, target)
                }
                &&& replies.len() <= 2
            },
        },
    decreases replies.len(),
{
    lemma_finalization_states(config, original, transcode, first, replies);
    if replies.len() > 0 {
        let earlier = replies.drop_last();
        let before = finalization_after(config, original, first, earlier).unwrap();
        law_finalization_requests(
            config,
            original,
            transcode,
            first,
            earlier,
            before.pending().unwrap(),
        );
        assert(forall|i: int| 0 <= i < earlier.len() ==> #[trigger] replies[i] == earlier[i]);
        lemma_finalization_states(config, original, transcode, first, earlier);
    }
}

/// How a finalization ends tells what was done. Outside a dry run, an original is clobbered exactly
/// if its transcode was copied and, but for a copy to its own path, it was removed; and a transcode
/// is placed exactly if the original was located, a directory created and the transcode copied.
/// Each failure is that of what was asked for last.
pub proof fn law_finalization_outcome(
    config: Config,
    original: Seq<PathPart>,
    transcode: Result<VideoCodec, AnalyzeError>,
    first: FinalizationView,
    replies: Seq<ReplyView>,
    end: FinalizeEnd,
)
    requires
        can_start(config, original, transcode, first),
        finalization_after(config, original, first, replies) == Some(
            FinalizationView::Finished(end),
        ),
    ensures
        ({
            let usable = transcode == Ok::<_, AnalyzeError>(VideoCodec::AV1);
            let action = config.transcoded_video_action;
            match end {
                FinalizeEnd::Discarded => usable && action == FileAction::Skip && replies.len()
                    == 0,
                FinalizeEnd::Clobbered => {
                    &&& usable && action == FileAction::Delete
                    &&& config.dry_run ==> replies.len() == 0
                    &&& !config.dry_run ==> {
                        &&& replies.len() > 0 && replies[0] == ReplyView::Completed
                        &&& first.pending() matches Some(RequestView::CopyTo(source, file))
                            && source == CopySource::Transcode && (!dot_stem(original) ==> file
                            == replaced_extension(original, mkv())) && (if file == original {
                            replies.len() == 1
                        } else {
                            replies.len() == 2 && replies[1] == ReplyView::Completed
                        })
                    }
                },
                FinalizeEnd::Placed => {
                    &&& usable && action == FileAction::Move
                    &&& config.transcoded_video_dir is Some
                    &&& config.dry_run ==> replies.len() == 0
                    &&& !config.dry_run ==> replies.len() == 3 && replies[0] is Located
                        && replies[1] == ReplyView::Completed && replies[2] == ReplyView::Completed
                },
                FinalizeEnd::Failed(FinalizeError::AnalyzeFailed(error)) => transcode == Err::<
                    VideoCodec,
                    _,
                >(error) && replies.len() == 0,
                FinalizeEnd::Failed(FinalizeError::NotAv1(codec)) => transcode == Ok::<
                    _,
                    AnalyzeError,
                >(codec) && codec != VideoCodec::AV1 && replies.len() == 0,
                FinalizeEnd::Failed(FinalizeError::NoTargetDir) => usable && action
                    == FileAction::Move && config.transcoded_video_dir is None && replies.len()
                    == 0,
                FinalizeEnd::Failed(error) => {
                    &&& usable && !config.dry_run
                    &&& error is NoPlace ==> {
                        &&& action == FileAction::Move
                        &&& config.transcoded_video_dir is Some
                        &&& replies.len() == 1 && replies[0] is Located
                        &&& error == FinalizeError::NoPlace(SubtreeError::OutsideRoot)
                            <==> !buf_parts(&config.video_dir).is_prefix_of(replies[0]->Located_0)
                        &&& error == FinalizeError::NoPlace(SubtreeError::NoParent) ==> !has_parent(
                            relocated(
                                buf_parts(&config.video_dir),
                                replies[0]->Located_0,
                                buf_parts(&config.transcoded_video_dir.unwrap()),
                            ),
                        )
                    }
                    &&& !(error is NoPlace) ==> replies.len() > 0 && replies.last()
                        == ReplyView::Failed
                    &&& error == FinalizeError::LocateFailed ==> action == FileAction::Move
                        && replies.len() == 1
                    &&& error == FinalizeError::CreateDirFailed ==> action == FileAction::Move
                        && replies.len() == 2
                    &&& error == FinalizeError::CopyFailed ==> replies.len() == (if action
                        == FileAction::Delete {
                        1nat
                    } else {
                        3nat
                    })
                    &&& error == FinalizeError::RemoveFailed ==> action == FileAction::Delete
                        && replies.len() == 2
                },
            }
        }),
{
    if replies.len() > 0 {
        let earlier = replies.drop_last();
        let before = finalization_after(config, original, first, earlier).unwrap();
        law_finalization_requests(
            config,
            original,
            transcode,
            first,
            earlier,
            before.pending().unwrap(),
        );
        assert(forall|i: int| 0 <= i < earlier.len() ==> #[trigger] replies[i] == earlier[i]);
        lemma_finalization_states(config, original, transcode, first, earlier);
        if earlier.len() > 0 {
            let start = earlier.drop_last();
            lemma_finalization_states(config, original, transcode, first, start);
            if earlier.len() == 1 {
                assert(start =~= Seq::<ReplyView>::empty());
            }
        } else {
            assert(earlier =~= Seq::<ReplyView>::empty());
        }
    }
}

/// A clobbering transcode is given the extension `mkv`.
pub proof fn law_clobbering_transcode_is_an_mkv(original: &Path, file: PathBuf)
    requires
        call_ensures(clobber_path, (original,), file),
        !dot_stem(path_parts(original)),
    ensures
        mkv() == seq!['m' as u8, 'k' as u8, 'v' as u8],
        valid_parts(path_parts(original)) && file_name(path_parts(original)) is Some ==> {
            &&& crate::paths::extension(buf_parts(&file)) == Some(mkv())
            &&& buf_parts(&file).drop_last() == path_parts(original).drop_last()
            &&& stem_of(file_name(buf_parts(&file)).unwrap()) == stem_of(
                file_name(path_parts(original)).unwrap(),
            )
        },
        file_name(path_parts(original)) is None ==> buf_parts(&file) == path_parts(original),
{
    assert(mkv() =~= seq!['m' as u8, 'k' as u8, 'v' as u8]);
    if valid_parts(path_parts(original)) && file_name(path_parts(original)) is Some {
        assert(plain_extension(mkv())) by {
            assert(mkv().len() == 3);
        }
        law_replaced_extension_is_read_back(path_parts(original), mkv());
    }
}

/// There is something left to do exactly until a finalization has ended.
pub proof fn law_finalization_waits_until_finished(any: FinalizationView)
    ensures
        any.pending() is None <==> any is Finished,
{
}

} // verus!
