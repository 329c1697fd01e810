//! The search for a constant rate factor (CRF) that makes a transcode small enough.
//!
//! A search tries one CRF after the other, from the configured one upwards. Each attempt is
//! watched while it runs and given up as soon as it outgrows its limit.

use std::path::Path;

use ffmpeg_sidecar::command::FfmpegCommand;
use vstd::prelude::*;

use crate::command::{
    command_args, command_program, law_audio_is_copied_or_encoded,
    law_command_reads_source_and_writes_destination, law_video_is_copied_or_encoded,
    transcode_args, CommandArg,
};
use crate::config::Config;
use crate::paths::{borrow_path, buf_parts, path_parts, AsPath};
use crate::video::{number, AudioCodec, VideoCodec, VideoFile};

verus! {

/// The encoder takes a CRF below this one.
pub const CRF_END: u8 = 64;

/// Something that has to be done before a search can go on.
#[derive(Clone, Copy, Debug, PartialEq, Eq, Structural)]
pub enum SearchRequest {
    /// Create the temporary file that the next attempt writes to, in [`target_dir`].
    CreateTarget,
    /// Start the encoder with this CRF, by [`attempt_command`], and watch its progress.
    Spawn { crf: u8 },
    /// Wait a moment, then see whether the encoder has finished.
    Poll,
    /// Read the size that the temporary file has now.
    Measure,
    /// Tell the encoder to stop.
    Quit,
    /// Wait until the encoder has stopped, however it ended, and drop the temporary file.
    Settle,
    /// Wait for how the encoder ended.
    Join,
}

/// How starting the encoder went.
#[derive(Clone, Copy, Debug, PartialEq, Eq, Structural)]
pub enum SpawnOutcome {
    Started,
    /// The encoder could not be started.
    NotStarted,
    /// The encoder has no standard input.
    NoStdin,
    /// The encoder's standard input cannot be written to.
    UnusableStdin,
}

/// What came of a request.
#[derive(Clone, Copy, Debug, PartialEq, Eq, Structural)]
pub enum SearchReply {
    /// Whether there is a temporary file.
    Target(bool),
    Spawned(SpawnOutcome),
    /// Whether the encoder has finished.
    Polled { finished: bool },
    /// The size of the temporary file, if it could be read.
    Size(Option<u64>),
    /// Whether the encoder was told to stop.
    QuitSent(bool),
    Settled,
    /// Whether the encoder's run ended as it should.
    Joined(bool),
}

/// Why a search was given up before every CRF was tried.
#[derive(Clone, Copy, Debug, PartialEq, Eq, Structural)]
pub enum SearchError {
    /// The encoder did not start: see [`SpawnOutcome`].
    Spawn(SpawnOutcome),
    /// The size of the transcode could not be read.
    Measure,
    /// The encoder could not be told to stop.
    Quit,
    /// The encoder's progress could not be followed to its end.
    Progress,
}

/// How a search ended.
#[derive(Clone, Copy, Debug, PartialEq, Eq, Structural)]
pub enum SearchEnd {
    /// The attempt with this CRF is within its limit.
    Accepted { crf: u8 },
    /// No CRF was able to produce a video within the limit.
    Exhausted,
    Failed(SearchError),
}

/// A search, and how far its current attempt has come.
#[derive(Clone, Copy, Debug, PartialEq, Eq, Structural)]
pub enum CrfSearch {
    Creating { crf: u8 },
    Spawning { crf: u8 },
    /// The encoder runs.
    Polling { crf: u8 },
    /// The encoder runs and its output is about to be measured.
    Measuring { crf: u8 },
    /// The output has outgrown the limit.
    Quitting { crf: u8 },
    Settling { crf: u8 },
    /// The encoder has finished.
    Joining { crf: u8 },
    /// The encoder's run was good and its output is about to be measured.
    Checking { crf: u8 },
    Finished(SearchEnd),
}

/// The attempt with this CRF, or the end of the search if the encoder does not take it.
pub open spec fn attempt_from(crf: int) -> CrfSearch {
    if crf < CRF_END {
        CrfSearch::Creating { crf: crf as u8 }
    } else {
        CrfSearch::Finished(SearchEnd::Exhausted)
    }
}

impl CrfSearch {
    /// The CRF that is being tried.
    pub open spec fn attempt(self) -> Option<int> {
        match self {
            CrfSearch::Creating { crf }
            | CrfSearch::Spawning { crf }
            | CrfSearch::Polling { crf }
            | CrfSearch::Measuring { crf }
            | CrfSearch::Quitting { crf }
            | CrfSearch::Settling { crf }
            | CrfSearch::Joining { crf }
            | CrfSearch::Checking { crf } => Some(crf as int),
            CrfSearch::Finished(_) => None,
        }
    }

    /// What the search waits for.
    pub open spec fn pending(self) -> Option<SearchRequest> {
        match self {
            CrfSearch::Creating { .. } => Some(SearchRequest::CreateTarget),
            CrfSearch::Spawning { crf } => Some(SearchRequest::Spawn { crf }),
            CrfSearch::Polling { .. } => Some(SearchRequest::Poll),
            CrfSearch::Measuring { .. } | CrfSearch::Checking { .. } => Some(SearchRequest::Measure),
            CrfSearch::Quitting { .. } => Some(SearchRequest::Quit),
            CrfSearch::Settling { .. } => Some(SearchRequest::Settle),
            CrfSearch::Joining { .. } => Some(SearchRequest::Join),
            CrfSearch::Finished(_) => None,
        }
    }

    /// Whether `reply` is a reply to what the search waits for.
    pub open spec fn accepts(self, reply: SearchReply) -> bool {
        match self.pending() {
            Some(SearchRequest::CreateTarget) => reply is Target,
            Some(SearchRequest::Spawn { .. }) => reply is Spawned,
            Some(SearchRequest::Poll) => reply is Polled,
            Some(SearchRequest::Measure) => reply is Size,
            Some(SearchRequest::Quit) => reply is QuitSent,
            Some(SearchRequest::Settle) => reply is Settled,
            Some(SearchRequest::Join) => reply is Joined,
            None => false,
        }
    }

    /// Whether `reply` rules the current CRF out: there is no file to write to, or the output is
    /// larger than `max_size`.
    pub open spec fn misses(self, max_size: u64, reply: SearchReply) -> bool {
        ||| self is Creating && reply == SearchReply::Target(false)
        ||| (self is Measuring || self is Checking) && (reply matches SearchReply::Size(Some(size))
            && size > max_size)
    }

    /// The search after `reply`.
    pub open spec fn after(self, max_size: u64, reply: SearchReply) -> CrfSearch {
        match (self, reply) {
            (CrfSearch::Creating { crf }, SearchReply::Target(true)) => CrfSearch::Spawning { crf },
            (CrfSearch::Creating { crf }, _) => attempt_from(crf + 1),
            (
                CrfSearch::Spawning { crf },
                SearchReply::Spawned(SpawnOutcome::Started),
            ) => CrfSearch::Polling { crf },
            (CrfSearch::Spawning { .. }, SearchReply::Spawned(outcome)) => CrfSearch::Finished(
                SearchEnd::Failed(SearchError::Spawn(outcome)),
            ),
            (CrfSearch::Polling { crf }, SearchReply::Polled { finished: false }) => {
                CrfSearch::Measuring { crf }
            },
            (CrfSearch::Polling { crf }, _) => CrfSearch::Joining { crf },
            (CrfSearch::Measuring { crf }, SearchReply::Size(Some(size))) => if size > max_size {
                CrfSearch::Quitting { crf }
            } else {
                CrfSearch::Polling { crf }
            },
            (CrfSearch::Checking { crf }, SearchReply::Size(Some(size))) => if size > max_size {
                attempt_from(crf + 1)
            } else {
                CrfSearch::Finished(SearchEnd::Accepted { crf })
            },
            (CrfSearch::Measuring { .. }, _) | (CrfSearch::Checking { .. }, _) => {
                CrfSearch::Finished(SearchEnd::Failed(SearchError::Measure))
            },
            (CrfSearch::Quitting { crf }, SearchReply::QuitSent(true)) => CrfSearch::Settling {
                crf,
            },
            (CrfSearch::Quitting { .. }, _) => CrfSearch::Finished(
                SearchEnd::Failed(SearchError::Quit),
            ),
            (CrfSearch::Settling { crf }, _) => attempt_from(crf + 1),
            (CrfSearch::Joining { crf }, SearchReply::Joined(true)) => CrfSearch::Checking { crf },
            (CrfSearch::Joining { .. }, _) => CrfSearch::Finished(
                SearchEnd::Failed(SearchError::Progress),
            ),
            (state, _) => state,
        }
    }

    /// Starts a search at `min_crf`.
    pub fn start(min_crf: u8) -> (search: Self)
        ensures
            search == attempt_from(min_crf as int),
    {
        if min_crf < CRF_END {
            CrfSearch::Creating { crf: min_crf }
        } else {
            CrfSearch::Finished(SearchEnd::Exhausted)
        }
    }

    /// Moves on to the next CRF.
    fn next_attempt(crf: u8) -> (search: Self)
        ensures
            search == attempt_from(crf + 1),
    {
        if crf < CRF_END - 1 {
            CrfSearch::Creating { crf: crf + 1 }
        } else {
            CrfSearch::Finished(SearchEnd::Exhausted)
        }
    }

    /// What has to be done next, or `None` once the search has ended.
    pub fn request(&self) -> (request: Option<SearchRequest>)
        ensures
            request == self.pending(),
    {
        match *self {
            CrfSearch::Creating { .. } => Some(SearchRequest::CreateTarget),
            CrfSearch::Spawning { crf } => Some(SearchRequest::Spawn { crf }),
            CrfSearch::Polling { .. } => Some(SearchRequest::Poll),
            CrfSearch::Measuring { .. } | CrfSearch::Checking { .. } => Some(SearchRequest::Measure),
            CrfSearch::Quitting { .. } => Some(SearchRequest::Quit),
            CrfSearch::Settling { .. } => Some(SearchRequest::Settle),
            CrfSearch::Joining { .. } => Some(SearchRequest::Join),
            CrfSearch::Finished(_) => None,
        }
    }

    /// Takes what came of the last request.
    pub fn advance(self, max_size: u64, reply: SearchReply) -> (search: Self)
        requires
            self.accepts(reply),
        ensures
            search == self.after(max_size, reply),
    {
        match (self, reply) {
            (CrfSearch::Creating { crf }, SearchReply::Target(created)) => {
                if created {
                    CrfSearch::Spawning { crf }
                } else {
                    Self::next_attempt(crf)
                }
            },
            (CrfSearch::Spawning { crf }, SearchReply::Spawned(outcome)) => {
                match outcome {
                    SpawnOutcome::Started => CrfSearch::Polling { crf },
                    _ => CrfSearch::Finished(SearchEnd::Failed(SearchError::Spawn(outcome))),
                }
            },
            (CrfSearch::Polling { crf }, SearchReply::Polled { finished }) => {
                if finished {
                    CrfSearch::Joining { crf }
                } else {
                    CrfSearch::Measuring { crf }
                }
            },
            (CrfSearch::Measuring { crf }, SearchReply::Size(Some(size))) => {
                if size > max_size {
                    CrfSearch::Quitting { crf }
                } else {
                    CrfSearch::Polling { crf }
                }
            },
            (CrfSearch::Checking { crf }, SearchReply::Size(Some(size))) => {
                if size > max_size {
                    Self::next_attempt(crf)
                } else {
                    CrfSearch::Finished(SearchEnd::Accepted { crf })
                }
            },
            (CrfSearch::Measuring { .. }, _) | (CrfSearch::Checking { .. }, _) => {
                CrfSearch::Finished(SearchEnd::Failed(SearchError::Measure))
            },
            (CrfSearch::Quitting { crf }, SearchReply::QuitSent(sent)) => {
                if sent {
                    CrfSearch::Settling { crf }
                } else {
                    CrfSearch::Finished(SearchEnd::Failed(SearchError::Quit))
                }
            },
            (CrfSearch::Settling { crf }, _) => Self::next_attempt(crf),
            (CrfSearch::Joining { crf }, SearchReply::Joined(joined)) => {
                if joined {
                    CrfSearch::Checking { crf }
                } else {
                    CrfSearch::Finished(SearchEnd::Failed(SearchError::Progress))
                }
            },
            (search, _) => search,
        }
    }
}

/// The directory that the temporary file of an attempt is created in.
pub fn target_dir(config: &Config) -> (dir: &Path)
    ensures
        path_parts(dir) == buf_parts(&config.working_dir),
{
    borrow_path(&config.working_dir)
}

/// The command of the attempt with this CRF to transcode `original` to the temporary file `dst`,
/// with the encoder at `ffmpeg`: to AV1 and AAC, with the configured hardware acceleration.
pub fn attempt_command<P: AsPath>(
    original: &VideoFile<P>,
    config: &Config,
    ffmpeg: &str,
    dst: &Path,
    crf: u8,
) -> (command: FfmpegCommand)
    ensures
        command_program(command) == ffmpeg@,
        command_args(command) == transcode_args(
            original.path.parts(),
            original.video_codec,
            original.audio_codec,
            path_parts(dst),
            VideoCodec::AV1,
            AudioCodec::Aac,
            crf,
            config.hwaccel,
        ),
{
    original.transcode_command(
        ffmpeg,
        dst,
        VideoCodec::AV1,
        AudioCodec::Aac,
        crf,
        config.hwaccel,
    )
}

/// The largest size that a transcode may have. A HEVC video must not grow. For any other codec,
/// `goal_size` is the size that the compression goal leaves of the original.
pub open spec fn limit_of(codec: VideoCodec, original_size: u64, goal_size: u64) -> u64 {
    if codec == VideoCodec::Hevc {
        original_size
    } else {
        goal_size
    }
}

/// The largest size that a transcode may have.
pub fn size_limit(codec: VideoCodec, original_size: u64, goal_size: u64) -> (max_size: u64)
    ensures
        max_size == limit_of(codec, original_size, goal_size),
{
    if codec == VideoCodec::Hevc {
        original_size
    } else {
        goal_size
    }
}

/// The search after all of `replies`, if each is a reply to what the search then waits for.
pub open spec fn search_after(
    min_crf: u8,
    max_size: u64,
    replies: Seq<SearchReply>,
) -> Option<CrfSearch>
    decreases replies.len(),
{
    if replies.len() == 0 {
        Some(attempt_from(min_crf as int))
    } else {
        match search_after(min_crf, max_size, replies.drop_last()) {
            Some(search) => if search.accepts(replies.last()) {
                Some(search.after(max_size, replies.last()))
            } else {
                None
            },
            None => None,
        }
    }
}

/// Whether reply number `k` ruled the CRF `crf` out.
pub open spec fn missed_by(
    min_crf: u8,
    max_size: u64,
    replies: Seq<SearchReply>,
    k: int,
    crf: int,
) -> bool {
    search_after(min_crf, max_size, replies.take(k)) matches Some(search) && search.attempt()
        == Some(crf) && search.misses(max_size, replies[k])
}

/// Whether one of `replies` ruled the CRF `crf` out.
pub open spec fn missed(
    min_crf: u8,
    max_size: u64,
    replies: Seq<SearchReply>,
    crf: int,
) -> bool {
    exists|k: int|
        0 <= k < replies.len() && #[trigger] missed_by(min_crf, max_size, replies, k, crf)
}

/// A transcode is accepted only when it is complete and measured no larger than its limit.
pub proof fn law_accepted_is_within_limit(
    min_crf: u8,
    max_size: u64,
    replies: Seq<SearchReply>,
    crf: u8,
)
    requires
        search_after(min_crf, max_size, replies) == Some(
            CrfSearch::Finished(SearchEnd::Accepted { crf }),
        ),
    ensures
        replies.len() > 0,
        search_after(min_crf, max_size, replies.drop_last()) == Some(CrfSearch::Checking { crf }),
        replies.last() matches SearchReply::Size(Some(size)) && size <= max_size,
{
}

/// An accepted transcode was measured no larger than its original, if the compression goal leaves
/// no more than that.
pub proof fn law_accepted_is_no_larger_than_original(
    min_crf: u8,
    codec: VideoCodec,
    original_size: u64,
    goal_size: u64,
    replies: Seq<SearchReply>,
    crf: u8,
)
    requires
        goal_size <= original_size,
        search_after(min_crf, limit_of(codec, original_size, goal_size), replies) == Some(
            CrfSearch::Finished(SearchEnd::Accepted { crf }),
        ),
    ensures
        limit_of(codec, original_size, goal_size) <= original_size,
        replies.len() > 0,
        replies.last() matches SearchReply::Size(Some(size)) && size <= original_size,
{
    law_accepted_is_within_limit(
        min_crf,
        limit_of(codec, original_size, goal_size),
        replies,
        crf,
    );
}

/// Every CRF that is tried is at least the configured one, and one that the encoder takes.
pub proof fn law_crf_stays_in_range(min_crf: u8, max_size: u64, replies: Seq<SearchReply>)
    requires
        search_after(min_crf, max_size, replies) is Some,
    ensures
        search_after(min_crf, max_size, replies).unwrap().attempt() matches Some(crf) ==> min_crf
            <= crf < CRF_END,
        search_after(min_crf, max_size, replies) matches Some(
            CrfSearch::Finished(SearchEnd::Accepted { crf }),
        ) ==> min_crf <= crf < CRF_END,
    decreases replies.len(),
{
    if replies.len() > 0 {
        law_crf_stays_in_range(min_crf, max_size, replies.drop_last());
    }
}

/// A reply leaves the CRF as it is or raises it by one, and it raises it only once the CRF has
/// been ruled out.
pub proof fn law_crf_is_raised_by_one(search: CrfSearch, max_size: u64, reply: SearchReply)
    requires
        search.accepts(reply),
        search.attempt() is Some,
        search.after(max_size, reply).attempt() is Some,
    ensures
        ({
            let before = search.attempt().unwrap();
            let after = search.after(max_size, reply).attempt().unwrap();
            ||| after == before
            ||| after == before + 1 && (search.misses(max_size, reply) || search is Settling)
        }),
{
}

/// How what was ruled out so far relates to where the search stands.
spec fn accounted(
    min_crf: u8,
    max_size: u64,
    replies: Seq<SearchReply>,
    search: CrfSearch,
) -> bool {
    match search {
        CrfSearch::Finished(SearchEnd::Accepted { crf }) => {
            &&& forall|c: int|
                min_crf <= c < crf ==> #[trigger] missed(min_crf, max_size, replies, c)
            &&& !missed(min_crf, max_size, replies, crf as int)
        },
        CrfSearch::Finished(SearchEnd::Exhausted) => forall|c: int|
            min_crf <= c < CRF_END ==> #[trigger] missed(min_crf, max_size, replies, c),
        CrfSearch::Finished(SearchEnd::Failed(_)) => true,
        _ => {
            let crf = search.attempt().unwrap();
            &&& forall|c: int|
                min_crf <= c < crf ==> #[trigger] missed(min_crf, max_size, replies, c)
            &&& forall|c: int| crf < c ==> !#[trigger] missed(min_crf, max_size, replies, c)
            &&& missed(min_crf, max_size, replies, crf) <==> (search is Quitting
                || search is Settling)
        },
    }
}

proof fn lemma_accounted(min_crf: u8, max_size: u64, replies: Seq<SearchReply>)
    requires
        search_after(min_crf, max_size, replies) is Some,
    ensures
        accounted(
            min_crf,
            max_size,
            replies,
            search_after(min_crf, max_size, replies).unwrap(),
        ),
    decreases replies.len(),
{
    if replies.len() > 0 {
        let earlier = replies.drop_last();
        let last = replies.len() - 1;
        let before = search_after(min_crf, max_size, earlier).unwrap();
        let crf = before.attempt().unwrap();
        lemma_accounted(min_crf, max_size, earlier);
        law_crf_stays_in_range(min_crf, max_size, earlier);
        assert(replies.take(last) =~= earlier);
        assert(missed_by(min_crf, max_size, replies, last, crf) == before.misses(
            max_size,
            replies.last(),
        ));
        assert forall|c: int|
            #[trigger] missed(min_crf, max_size, replies, c) == (missed(
                min_crf,
                max_size,
                earlier,
                c,
            ) || (c == crf && before.misses(max_size, replies.last()))) by {
            if missed(min_crf, max_size, earlier, c) {
                let k = choose|k: int|
                    0 <= k < earlier.len() && #[trigger] missed_by(
                        min_crf,
                        max_size,
                        earlier,
                        k,
                        c,
                    );
                assert(earlier.take(k) =~= replies.take(k));
                assert(missed_by(min_crf, max_size, replies, k, c));
            }
            if missed(min_crf, max_size, replies, c) {
                let k = choose|k: int|
                    0 <= k < replies.len() && #[trigger] missed_by(
                        min_crf,
                        max_size,
                        replies,
                        k,
                        c,
                    );
                if k < last {
                    assert(earlier.take(k) =~= replies.take(k));
                    assert(missed_by(min_crf, max_size, earlier, k, c));
                }
            }
        }
    }
}

/// The CRF of an accepted transcode is the lowest one, from the configured one upwards, that was
/// not ruled out.
pub proof fn law_accepted_crf_is_lowest(
    min_crf: u8,
    max_size: u64,
    replies: Seq<SearchReply>,
    crf: u8,
)
    requires
        search_after(min_crf, max_size, replies) == Some(
            CrfSearch::Finished(SearchEnd::Accepted { crf }),
        ),
    ensures
        forall|c: int| min_crf <= c < crf ==> #[trigger] missed(min_crf, max_size, replies, c),
        !missed(min_crf, max_size, replies, crf as int),
{
    lemma_accounted(min_crf, max_size, replies);
}

/// A search is exhausted only after every CRF from the configured one upwards was ruled out.
pub proof fn law_exhausted_tried_everything(
    min_crf: u8,
    max_size: u64,
    replies: Seq<SearchReply>,
)
    requires
        search_after(min_crf, max_size, replies) == Some(
            CrfSearch::Finished(SearchEnd::Exhausted),
        ),
    ensures
        forall|c: int|
            min_crf <= c < CRF_END ==> #[trigger] missed(min_crf, max_size, replies, c),
{
    lemma_accounted(min_crf, max_size, replies);
}

/// Whether `reply` is what comes if nothing goes wrong and the output for each CRF grows to a size
/// of `out`.
pub open spec fn is_regular(
    search: CrfSearch,
    reply: SearchReply,
    out: spec_fn(int) -> u64,
) -> bool {
    match reply {
        SearchReply::Target(created) => created,
        SearchReply::Spawned(outcome) => outcome == SpawnOutcome::Started,
        SearchReply::Size(size) => {
            &&& size is Some
            &&& search.attempt() is Some
            &&& size.unwrap() <= out(search.attempt().unwrap())
            &&& search is Checking ==> size.unwrap() == out(search.attempt().unwrap())
        },
        SearchReply::QuitSent(sent) => sent,
        SearchReply::Joined(joined) => joined,
        SearchReply::Polled { .. } | SearchReply::Settled => true,
    }
}

/// Whether all of `replies` are what comes if nothing goes wrong and the output for each CRF grows
/// to a size of `out`.
pub open spec fn runs_regularly(
    min_crf: u8,
    max_size: u64,
    replies: Seq<SearchReply>,
    out: spec_fn(int) -> u64,
) -> bool {
    forall|k: int|
        0 <= k < replies.len() ==> is_regular(
            search_after(min_crf, max_size, #[trigger] replies.take(k)).unwrap(),
            replies[k],
            out,
        )
}

/// In a search where nothing goes wrong, a CRF is ruled out only if its output is too large, and
/// one is accepted only if it is not.
proof fn lemma_regular_search(
    min_crf: u8,
    max_size: u64,
    replies: Seq<SearchReply>,
    out: spec_fn(int) -> u64,
    crf: int,
)
    requires
        search_after(min_crf, max_size, replies) is Some,
        runs_regularly(min_crf, max_size, replies, out),
    ensures
        missed(min_crf, max_size, replies, crf) ==> out(crf) > max_size,
        !(search_after(min_crf, max_size, replies) matches Some(
            CrfSearch::Finished(SearchEnd::Failed(_)),
        )),
        search_after(min_crf, max_size, replies) matches Some(
            CrfSearch::Finished(SearchEnd::Accepted { crf: accepted }),
        ) ==> out(accepted as int) <= max_size,
{
    if missed(min_crf, max_size, replies, crf) {
        let k = choose|k: int|
            0 <= k < replies.len() && #[trigger] missed_by(min_crf, max_size, replies, k, crf);
        assert(is_regular(
            search_after(min_crf, max_size, replies.take(k)).unwrap(),
            replies[k],
            out,
        ));
    }
    if replies.len() > 0 {
        let last = replies.len() - 1;
        assert(replies.take(last) =~= replies.drop_last());
        assert(is_regular(
            search_after(min_crf, max_size, replies.take(last)).unwrap(),
            replies[last],
            out,
        ));
    }
}

/// Of two searches for the same video in which nothing goes wrong, one that may start at a lower
/// CRF and has a higher limit succeeds where the other does, and needs no higher CRF.
pub proof fn law_laxer_search_succeeds(
    min_crf: u8,
    max_size: u64,
    replies: Seq<SearchReply>,
    strict_min_crf: u8,
    strict_max_size: u64,
    strict_replies: Seq<SearchReply>,
    out: spec_fn(int) -> u64,
    strict_crf: u8,
)
    requires
        min_crf <= strict_min_crf,
        strict_max_size <= max_size,
        runs_regularly(min_crf, max_size, replies, out),
        runs_regularly(strict_min_crf, strict_max_size, strict_replies, out),
        search_after(min_crf, max_size, replies) matches Some(CrfSearch::Finished(_)),
        search_after(strict_min_crf, strict_max_size, strict_replies) == Some(
            CrfSearch::Finished(SearchEnd::Accepted { crf: strict_crf }),
        ),
    ensures
        search_after(min_crf, max_size, replies) matches Some(
            CrfSearch::Finished(SearchEnd::Accepted { crf }),
        ) && crf <= strict_crf,
{
    law_crf_stays_in_range(strict_min_crf, strict_max_size, strict_replies);
    lemma_regular_search(
        strict_min_crf,
        strict_max_size,
        strict_replies,
        out,
        strict_crf as int,
    );
    lemma_regular_search(min_crf, max_size, replies, out, strict_crf as int);
    lemma_accounted(min_crf, max_size, replies);
    assert(!missed(min_crf, max_size, replies, strict_crf as int));
}

/// Whether the search has given the CRF `crf` up: it tries the next one from the start, or it has
/// ended because the encoder takes none from 64 on.
pub open spec fn has_moved_on(search: CrfSearch, crf: int) -> bool {
    if crf + 1 < 64 {
        search.attempt() == Some(crf + 1) && search.pending() == Some(SearchRequest::CreateTarget)
    } else {
        search == CrfSearch::Finished(SearchEnd::Exhausted)
    }
}

/// A search starts with the configured CRF. If the encoder does not take that one, it has tried
/// everything at once.
pub proof fn law_search_starts_at_minimum(min_crf: u8, search: CrfSearch)
    requires
        call_ensures(CrfSearch::start, (min_crf,), search),
    ensures
        min_crf < 64 ==> search.attempt() == Some(min_crf as int) && search.pending() == Some(
            SearchRequest::CreateTarget,
        ),
        min_crf >= 64 ==> search == CrfSearch::Finished(SearchEnd::Exhausted),
{
}

/// Once there is a temporary file, the encoder is started with the CRF that is being tried, and
/// once it runs, it is watched. Without a temporary file, the CRF is given up.
pub proof fn law_attempt_begins(search: CrfSearch, max_size: u64, crf: int)
    requires
        search.pending() == Some(SearchRequest::CreateTarget),
        search.attempt() == Some(crf),
    ensures
        ({
            let created = search.after(max_size, SearchReply::Target(true));
            let running = created.after(max_size, SearchReply::Spawned(SpawnOutcome::Started));
            &&& created.pending() == Some(SearchRequest::Spawn { crf: crf as u8 })
            &&& created.attempt() == Some(crf)
            &&& running.pending() == Some(SearchRequest::Poll)
            &&& running.attempt() == Some(crf)
            &&& crf < 64 ==> has_moved_on(search.after(max_size, SearchReply::Target(false)), crf)
        }),
{
}

/// As long as the encoder runs, its output is measured time and again. An attempt that is within
/// the limit goes on as it was. One that has outgrown it is stopped, waited for and given up.
pub proof fn law_running_attempt_is_watched(search: CrfSearch, max_size: u64, crf: int, size: u64)
    requires
        search.pending() == Some(SearchRequest::Poll),
        search.attempt() == Some(crf),
        crf < 64,
    ensures
        ({
            let watched = search.after(max_size, SearchReply::Polled { finished: false });
            let measured = watched.after(max_size, SearchReply::Size(Some(size)));
            let stopped = measured.after(max_size, SearchReply::QuitSent(true));
            &&& watched.pending() == Some(SearchRequest::Measure)
            &&& size <= max_size ==> measured == search
            &&& size > max_size ==> {
                &&& measured.pending() == Some(SearchRequest::Quit)
                &&& stopped.pending() == Some(SearchRequest::Settle)
                &&& has_moved_on(stopped.after(max_size, SearchReply::Settled), crf)
            }
        }),
{
}

/// Once the encoder has ended well, the complete output is measured, and that alone decides: within
/// the limit, it is accepted with its CRF; else the CRF is given up.
pub proof fn law_complete_transcode_is_judged_by_size(
    search: CrfSearch,
    max_size: u64,
    crf: int,
    size: u64,
)
    requires
        search.pending() == Some(SearchRequest::Poll),
        search.attempt() == Some(crf),
        crf < 64,
    ensures
        ({
            let ended = search.after(max_size, SearchReply::Polled { finished: true });
            let complete = ended.after(max_size, SearchReply::Joined(true));
            let judged = complete.after(max_size, SearchReply::Size(Some(size)));
            &&& ended.pending() == Some(SearchRequest::Join)
            &&& complete == CrfSearch::Checking { crf: crf as u8 }
            &&& complete.pending() == Some(SearchRequest::Measure)
            &&& size <= max_size ==> judged == CrfSearch::Finished(
                SearchEnd::Accepted { crf: crf as u8 },
            )
            &&& size > max_size ==> has_moved_on(judged, crf)
        }),
{
}

/// A search is accepted exactly when the complete output is measured to be within the limit,
/// wherever the search stands and whatever it is told.
pub proof fn law_accepted_exactly_when_small_enough(
    search: CrfSearch,
    max_size: u64,
    reply: SearchReply,
    crf: u8,
)
    requires
        search.accepts(reply),
    ensures
        search.after(max_size, reply) == CrfSearch::Finished(SearchEnd::Accepted { crf }) <==> (
        search == CrfSearch::Checking { crf } && (reply matches SearchReply::Size(Some(size))
            && size <= max_size)),
{
}

/// A search fails exactly when something that it asked for could not be done, and says what.
pub proof fn law_search_fails_for_a_reason(
    search: CrfSearch,
    max_size: u64,
    reply: SearchReply,
    error: SearchError,
)
    requires
        search.accepts(reply),
    ensures
        search.after(max_size, reply) == CrfSearch::Finished(SearchEnd::Failed(error)) <==> match (
            reply,
            error,
        ) {
            (SearchReply::Spawned(outcome), SearchError::Spawn(told)) => outcome
                != SpawnOutcome::Started && told == outcome,
            (SearchReply::Size(None), SearchError::Measure) => true,
            (SearchReply::QuitSent(sent), SearchError::Quit) => !sent,
            (SearchReply::Joined(joined), SearchError::Progress) => !joined,
            _ => false,
        },
{
}

/// A search is told of what it asked for and of nothing else: a reply to one request is none to
/// another, and a search that has ended takes none.
pub proof fn law_replies_fit_requests(search: CrfSearch, reply: SearchReply)
    ensures
        search.accepts(reply) <==> match reply {
            SearchReply::Target(_) => search.pending() == Some(SearchRequest::CreateTarget),
            SearchReply::Spawned(_) => search.pending() matches Some(SearchRequest::Spawn { .. }),
            SearchReply::Polled { .. } => search.pending() == Some(SearchRequest::Poll),
            SearchReply::Size(_) => search.pending() == Some(SearchRequest::Measure),
            SearchReply::QuitSent(_) => search.pending() == Some(SearchRequest::Quit),
            SearchReply::Settled => search.pending() == Some(SearchRequest::Settle),
            SearchReply::Joined(_) => search.pending() == Some(SearchRequest::Join),
        },
        search.pending() is None <==> search is Finished,
        search.pending() matches Some(SearchRequest::Spawn { crf }) ==> search.attempt() == Some(
            crf as int,
        ),
{
}

/// How far a search has come: an attempt is further than every attempt with a lower CRF, and the
/// end is furthest.
pub open spec fn advancement(search: CrfSearch) -> int {
    match search {
        CrfSearch::Creating { crf } => 8 * crf,
        CrfSearch::Spawning { crf } => 8 * crf + 1,
        CrfSearch::Polling { crf } => 8 * crf + 2,
        CrfSearch::Measuring { crf } => 8 * crf + 3,
        CrfSearch::Quitting { crf } => 8 * crf + 4,
        CrfSearch::Settling { crf } => 8 * crf + 5,
        CrfSearch::Joining { crf } => 8 * crf + 4,
        CrfSearch::Checking { crf } => 8 * crf + 5,
        CrfSearch::Finished(_) => 2048,
    }
}

/// A search never goes back, but for watching on a running attempt that is within the limit. So no
/// CRF is encoded twice.
pub proof fn law_search_never_goes_back(search: CrfSearch, max_size: u64, reply: SearchReply)
    requires
        search.accepts(reply),
    ensures
        advancement(search.after(max_size, reply)) > advancement(search) || {
            &&& search is Measuring
            &&& search.after(max_size, reply) is Polling
            &&& search.after(max_size, reply).attempt() == search.attempt()
            &&& reply matches SearchReply::Size(Some(size)) && size <= max_size
        },
{
}

/// How many of `replies` told that the encoder was still running.
pub open spec fn unfinished_polls(replies: Seq<SearchReply>) -> nat
    decreases replies.len(),
{
    if replies.len() == 0 {
        0
    } else {
        unfinished_polls(replies.drop_last()) + if replies.last() == (SearchReply::Polled {
            finished: false,
        }) {
            1nat
        } else {
            0nat
        }
    }
}

/// How many replies an attempt has taken at most, beside two for each time that the encoder was
/// still running.
spec fn attempt_replies(search: CrfSearch) -> int {
    match search {
        CrfSearch::Creating { .. } => 0,
        CrfSearch::Spawning { .. } | CrfSearch::Measuring { .. } => 1,
        CrfSearch::Polling { .. } | CrfSearch::Quitting { .. } => 2,
        CrfSearch::Joining { .. } | CrfSearch::Settling { .. } => 3,
        CrfSearch::Checking { .. } => 4,
        CrfSearch::Finished(_) => 5,
    }
}

proof fn lemma_search_length(min_crf: u8, max_size: u64, replies: Seq<SearchReply>)
    requires
        min_crf < 64,
        search_after(min_crf, max_size, replies) is Some,
    ensures
        ({
            let search = search_after(min_crf, max_size, replies).unwrap();
            let bound = 2 * unfinished_polls(replies) + attempt_replies(search);
            match search.attempt() {
                Some(crf) => replies.len() <= bound + 5 * (crf - min_crf),
                None => replies.len() <= bound + 5 * (63 - min_crf),
            }
        }),
    decreases replies.len(),
{
    if replies.len() > 0 {
        lemma_search_length(min_crf, max_size, replies.drop_last());
        law_crf_stays_in_range(min_crf, max_size, replies.drop_last());
    }
}

/// Every search in which the encoder comes to an end does: beside two replies for each time that
/// the encoder was still running, no CRF takes more than five.
pub proof fn law_search_ends(min_crf: u8, max_size: u64, replies: Seq<SearchReply>)
    requires
        min_crf < 64,
        search_after(min_crf, max_size, replies) is Some,
    ensures
        replies.len() <= 2 * unfinished_polls(replies) + 5 * (64 - min_crf),
{
    lemma_search_length(min_crf, max_size, replies);
    law_crf_stays_in_range(min_crf, max_size, replies);
}

/// A search in which nothing goes wrong ends with the lowest CRF, from the configured one upwards,
/// whose output is within the limit, and without one exactly if there is no such CRF.
pub proof fn law_search_finds_lowest_crf(
    min_crf: u8,
    max_size: u64,
    replies: Seq<SearchReply>,
    out: spec_fn(int) -> u64,
    end: SearchEnd,
)
    requires
        runs_regularly(min_crf, max_size, replies, out),
        search_after(min_crf, max_size, replies) == Some(CrfSearch::Finished(end)),
    ensures
        match end {
            SearchEnd::Accepted { crf } => {
                &&& min_crf <= crf < 64
                &&& out(crf as int) <= max_size
                &&& forall|c: int| min_crf <= c < crf ==> #[trigger] out(c) > max_size
            },
            SearchEnd::Exhausted => forall|c: int|
                min_crf <= c < 64 ==> #[trigger] out(c) > max_size,
            SearchEnd::Failed(_) => false,
        },
{
    lemma_accounted(min_crf, max_size, replies);
    law_crf_stays_in_range(min_crf, max_size, replies);
    lemma_regular_search(min_crf, max_size, replies, out, 0);
    assert forall|c: int| missed(min_crf, max_size, replies, c) implies #[trigger] out(c)
        > max_size by {
        lemma_regular_search(min_crf, max_size, replies, out, c);
    }
    match end {
        SearchEnd::Accepted { crf } => {
            assert forall|c: int| min_crf <= c < crf implies #[trigger] out(c) > max_size by {
                assert(missed(min_crf, max_size, replies, c));
            }
        },
        SearchEnd::Exhausted => {
            assert forall|c: int| min_crf <= c < 64 implies #[trigger] out(c) > max_size by {
                assert(missed(min_crf, max_size, replies, c));
            }
        },
        SearchEnd::Failed(_) => {},
    }
}

/// A HEVC video may keep its size, whatever the goal. Every other video has to meet the goal,
/// whatever its size.
pub proof fn law_only_hevc_may_keep_its_size(
    codec: VideoCodec,
    original_size: u64,
    goal_size: u64,
    max_size: u64,
)
    requires
        call_ensures(size_limit, (codec, original_size, goal_size), max_size),
    ensures
        codec == VideoCodec::Hevc ==> max_size == original_size,
        codec == VideoCodec::AV1 || codec == VideoCodec::Other ==> max_size == goal_size,
        max_size == limit_of(codec, original_size, goal_size),
{
}

/// The temporary file of an attempt is created in the working directory, and in no other.
pub proof fn law_attempts_stay_in_working_dir(config: &Config, dir: &Path)
    requires
        call_ensures(target_dir, (config,), dir),
    ensures
        path_parts(dir) == buf_parts(&config.working_dir),
{
}

/// An attempt encodes to AV1 and AAC with its CRF and the configured hardware acceleration, from
/// the video to the temporary file.
pub proof fn law_attempts_encode_to_av1_and_aac<P: AsPath>(
    original: &VideoFile<P>,
    config: &Config,
    ffmpeg: &str,
    dst: &Path,
    crf: u8,
    command: FfmpegCommand,
)
    requires
        call_ensures(attempt_command::<P>, (original, config, ffmpeg, dst, crf), command),
        original.video_codec != VideoCodec::AV1,
    ensures
        ({
            let args = command_args(command);
            &&& command_program(command) == ffmpeg@
            &&& args[6] == CommandArg::Text(config.hwaccel.label())
            &&& args[8] == CommandArg::File(original.path.parts())
            &&& args[13] == CommandArg::Text("-c:v"@) && args[14] == CommandArg::Text("libsvtav1"@)
            &&& args[17] == CommandArg::Text("-crf"@)
            &&& args[18] matches CommandArg::Text(text) && number(text) == Some(crf as u64)
            &&& args[24] == CommandArg::Text("-c:a"@)
            &&& args[25] == CommandArg::Text(
                if original.audio_codec == Some(AudioCodec::Other) {
                    "libfdk_aac"@
                } else {
                    "copy"@
                },
            )
            &&& args.last() == CommandArg::File(path_parts(dst))
        }),
{
    law_command_reads_source_and_writes_destination(
        original.path.parts(),
        original.video_codec,
        original.audio_codec,
        path_parts(dst),
        VideoCodec::AV1,
        AudioCodec::Aac,
        crf,
        config.hwaccel,
    );
    law_video_is_copied_or_encoded(
        original.path.parts(),
        original.video_codec,
        original.audio_codec,
        path_parts(dst),
        VideoCodec::AV1,
        AudioCodec::Aac,
        crf,
        config.hwaccel,
    );
    law_audio_is_copied_or_encoded(
        original.path.parts(),
        original.video_codec,
        original.audio_codec,
        path_parts(dst),
        VideoCodec::AV1,
        AudioCodec::Aac,
        crf,
        config.hwaccel,
    );
}

} // verus!
