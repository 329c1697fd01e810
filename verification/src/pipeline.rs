//! The stages that a file goes through.

use vstd::prelude::*;

use crate::command::{can_encode, video_args};
use crate::paths::AsPath;
use crate::scan::EntryRoute;
use crate::transcode::SearchEnd;
use crate::video::{AnalyzeError, AudioCodec, VideoCodec, VideoFile};

verus! {

/// What a file can be waiting for.
#[derive(Clone, Copy, Debug, PartialEq, Eq, Structural)]
pub enum Stage {
    FindVideoFiles,
    AnalyzeVideoFiles,
    TranscodeVideoFiles,
    FinalizeTranscodes,
    HandleEmptyDirs,
    HandleSymlinks,
    HandleNonvideoFiles,
    HandleBrokenVideoFiles,
    HandleFailedTranscodes,
    /// Nothing more is done with the file.
    Done,
}

/// The stages, and which of them follow each other.
pub open spec fn leads_to(from: Stage, to: Stage) -> bool {
    match from {
        Stage::FindVideoFiles => to == Stage::AnalyzeVideoFiles || to == Stage::HandleEmptyDirs
            || to == Stage::HandleSymlinks || to == Stage::HandleNonvideoFiles,
        Stage::AnalyzeVideoFiles => to == Stage::TranscodeVideoFiles || to
            == Stage::HandleBrokenVideoFiles,
        Stage::TranscodeVideoFiles => to == Stage::FinalizeTranscodes || to
            == Stage::HandleFailedTranscodes,
        Stage::Done => false,
        _ => to == Stage::Done,
    }
}

/// Where an entry goes once it was found.
pub open spec fn stage_of_entry(route: EntryRoute) -> Stage {
    match route {
        EntryRoute::Symlink => Stage::HandleSymlinks,
        EntryRoute::Dir => Stage::HandleEmptyDirs,
        EntryRoute::NonVideo => Stage::HandleNonvideoFiles,
        EntryRoute::Video => Stage::AnalyzeVideoFiles,
    }
}

/// Where a video goes once it was analyzed. One that cannot be probed is broken. One that can be
/// probed but is of no use is left alone, and so is an AV1 video.
pub open spec fn stage_of_analysis<P: AsPath>(
    analyzed: Result<VideoFile<P>, AnalyzeError>,
) -> Stage {
    match analyzed {
        Err(AnalyzeError::ProbeFailed) => Stage::HandleBrokenVideoFiles,
        Err(_) => Stage::Done,
        Ok(video) => if video.video_codec == VideoCodec::AV1 {
            Stage::Done
        } else {
            Stage::TranscodeVideoFiles
        },
    }
}

/// Where a video goes once its transcode was tried.
pub open spec fn stage_of_search(end: SearchEnd) -> Stage {
    match end {
        SearchEnd::Accepted { .. } => Stage::FinalizeTranscodes,
        _ => Stage::HandleFailedTranscodes,
    }
}

/// Where an entry goes once it was found.
pub fn after_scan(route: EntryRoute) -> (stage: Stage)
    ensures
        stage == stage_of_entry(route),
{
    match route {
        EntryRoute::Symlink => Stage::HandleSymlinks,
        EntryRoute::Dir => Stage::HandleEmptyDirs,
        EntryRoute::NonVideo => Stage::HandleNonvideoFiles,
        EntryRoute::Video => Stage::AnalyzeVideoFiles,
    }
}

/// Where a video goes once it was analyzed.
pub fn after_analysis<P: AsPath>(analyzed: &Result<VideoFile<P>, AnalyzeError>) -> (stage: Stage)
    ensures
        stage == stage_of_analysis(*analyzed),
{
    match analyzed {
        Ok(video) => if video.video_codec == VideoCodec::AV1 {
            Stage::Done
        } else {
            Stage::TranscodeVideoFiles
        },
        Err(AnalyzeError::ProbeFailed) => Stage::HandleBrokenVideoFiles,
        Err(AnalyzeError::NoVideoStream | AnalyzeError::NoCodecName | AnalyzeError::BadSize) => {
            Stage::Done
        },
    }
}

/// Where a video goes once its transcode was tried.
pub fn after_search(end: SearchEnd) -> (stage: Stage)
    ensures
        stage == stage_of_search(end),
{
    match end {
        SearchEnd::Accepted { .. } => Stage::FinalizeTranscodes,
        SearchEnd::Exhausted | SearchEnd::Failed(_) => Stage::HandleFailedTranscodes,
    }
}

/// Every file follows the stages. AV1 videos leave them early, and so do files that can be probed
/// but are of no use.
pub proof fn law_files_follow_stages<P: AsPath>(
    route: EntryRoute,
    analyzed: Result<VideoFile<P>, AnalyzeError>,
    end: SearchEnd,
)
    requires
        analyzed matches Ok(video) ==> video.video_codec != VideoCodec::AV1,
        analyzed matches Err(error) ==> error == AnalyzeError::ProbeFailed,
    ensures
        leads_to(Stage::FindVideoFiles, stage_of_entry(route)),
        leads_to(Stage::AnalyzeVideoFiles, stage_of_analysis(analyzed)),
        leads_to(Stage::TranscodeVideoFiles, stage_of_search(end)),
{
}

/// A file is handled as a broken video exactly if it could not be probed.
pub proof fn law_only_unprobed_files_are_broken<P: AsPath>(
    analyzed: Result<VideoFile<P>, AnalyzeError>,
)
    ensures
        stage_of_analysis(analyzed) == Stage::HandleBrokenVideoFiles <==> (analyzed matches Err(
            error,
        ) && error == AnalyzeError::ProbeFailed),
{
}

/// A video that is sent to be transcoded to AV1 can be, whatever its audio codec, and its video
/// stream is encoded anew.
pub proof fn law_transcodes_are_encoded<P: AsPath>(video: VideoFile<P>, crf: u8)
    requires
        stage_of_analysis(Ok::<_, AnalyzeError>(video)) == Stage::TranscodeVideoFiles,
    ensures
        can_encode(video.video_codec, video.audio_codec, VideoCodec::AV1, AudioCodec::Aac),
        video_args(video.video_codec, VideoCodec::AV1, crf) != video_args(
            VideoCodec::AV1,
            VideoCodec::AV1,
            crf,
        ),
{
    assert(video_args(video.video_codec, VideoCodec::AV1, crf).len() == 11);
    assert(video_args(VideoCodec::AV1, VideoCodec::AV1, crf).len() == 2);
}

/// A symlink, a directory, a file that is no video and a video each go to a stage of their own.
pub proof fn law_entries_go_to_their_own_stage(route: EntryRoute, stage: Stage)
    requires
        call_ensures(after_scan, (route,), stage),
    ensures
        stage == Stage::HandleSymlinks <==> route == EntryRoute::Symlink,
        stage == Stage::HandleEmptyDirs <==> route == EntryRoute::Dir,
        stage == Stage::HandleNonvideoFiles <==> route == EntryRoute::NonVideo,
        stage == Stage::AnalyzeVideoFiles <==> route == EntryRoute::Video,
        stage == stage_of_entry(route),
{
}

/// A video is transcoded exactly if it could be read and is not AV1 already, handled as broken
/// exactly if it could not be probed, and left alone otherwise.
pub proof fn law_only_other_codecs_are_transcoded<P: AsPath>(
    analyzed: &Result<VideoFile<P>, AnalyzeError>,
    stage: Stage,
)
    requires
        call_ensures(after_analysis::<P>, (analyzed,), stage),
    ensures
        stage == Stage::TranscodeVideoFiles <==> (*analyzed is Ok && (
        analyzed.unwrap().video_codec == VideoCodec::Hevc || analyzed.unwrap().video_codec
            == VideoCodec::Other)),
        stage == Stage::HandleBrokenVideoFiles <==> *analyzed == Err::<VideoFile<P>, _>(
            AnalyzeError::ProbeFailed,
        ),
        stage == Stage::TranscodeVideoFiles || stage == Stage::HandleBrokenVideoFiles || stage
            == Stage::Done,
        stage == stage_of_analysis(*analyzed),
{
}

/// A transcode is finalized exactly if one was accepted. All else is a failed transcode.
pub proof fn law_only_accepted_transcodes_are_finalized(end: SearchEnd, stage: Stage)
    requires
        call_ensures(after_search, (end,), stage),
    ensures
        stage == Stage::FinalizeTranscodes <==> end is Accepted,
        stage == Stage::HandleFailedTranscodes <==> !(end is Accepted),
        stage == stage_of_search(end),
{
}

/// From the search for files on, every stage but the last has a next one, and every handler is
/// followed by nothing more.
pub proof fn law_handlers_come_last(stage: Stage)
    ensures
        stage == Stage::HandleEmptyDirs || stage == Stage::HandleSymlinks || stage
            == Stage::HandleNonvideoFiles || stage == Stage::HandleBrokenVideoFiles || stage
            == Stage::HandleFailedTranscodes || stage == Stage::FinalizeTranscodes ==> forall|
            next: Stage,
        | #[trigger]
            leads_to(stage, next) <==> next == Stage::Done,
        forall|next: Stage| !#[trigger] leads_to(Stage::Done, next),
        leads_to(Stage::FindVideoFiles, Stage::AnalyzeVideoFiles),
        leads_to(Stage::AnalyzeVideoFiles, Stage::TranscodeVideoFiles),
        leads_to(Stage::TranscodeVideoFiles, Stage::FinalizeTranscodes),
        !leads_to(Stage::FindVideoFiles, Stage::TranscodeVideoFiles),
        !leads_to(Stage::AnalyzeVideoFiles, Stage::FinalizeTranscodes),
{
}

} // verus!
