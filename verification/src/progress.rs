//! What is told of a running transcode, and of its result.

use std::time::Duration;

use bytesize::ByteSize;
use vstd::arithmetic::power::pow;
use vstd::prelude::*;

use crate::command::{decimal_text, digit_char};
use crate::paths::AsPath;
use crate::video::VideoFile;

verus! {

/// How severe a message of the encoder is.
#[derive(Clone, Copy, Debug, PartialEq, Eq, Structural)]
pub enum Severity {
    Info,
    Warning,
    Error,
    Fatal,
    Unknown,
}

/// Something that the encoder reports while it runs.
#[derive(Debug)]
pub enum EncoderEvent {
    Log(Severity, String),
    /// How many frames and kilobytes were written so far.
    Progress { frame: u32, size_kb: u32 },
    /// Anything else.
    Other,
}

/// How much of a video is done.
#[derive(Clone, Copy, Debug, PartialEq, Eq, Structural)]
pub enum Completion {
    /// This many frames out of so many.
    Frames { frame: u32, nb_frames: u64 },
    Unknown,
}

/// What is shown of the progress of a transcode.
#[derive(Debug)]
pub struct ProgressLine {
    pub crf: u8,
    pub frame: u32,
    pub progress: Completion,
    /// The size of the output, readable to people.
    pub size: String,
}

/// What is told of something that the encoder reported.
#[derive(Debug)]
pub enum ProgressUpdate {
    Error(String),
    Warning(String),
    Show(ProgressLine),
    Nothing,
}

/// Numbers of bytes below this one are written as they are.
pub const KIB: u64 = 1024;

/// The letters of the binary units, each of which is `KIB` times the one before.
pub open spec fn unit_letters() -> Seq<char> {
    seq!['k', 'M', 'G', 'T', 'P', 'E']
}

/// This many tenths of the binary unit at this place, counted from one.
pub open spec fn scaled_text(tenths: nat, place: nat) -> Seq<char> {
    decimal_text(tenths / 10) + seq![
        '.',
        digit_char(tenths % 10),
        ' ',
        unit_letters()[place - 1],
        'i',
        'B',
    ]
}

/// Up to this number, floating-point numbers hold every whole number.
pub const EXACT_LIMIT: u64 = 9_007_199_254_740_992;

/// Whether this many tenths of the unit are as close to `bytes` as can be: within half a tenth of
/// a unit, and beyond `EXACT_LIMIT` within what a floating-point number loses of a 64-bit one, too.
pub open spec fn is_rounded(bytes: u64, tenths: nat, place: nat) -> bool {
    let unit = pow(KIB as int, place);
    let lost = if bytes <= EXACT_LIMIT {
        0
    } else {
        10 * KIB
    };
    let distance = 10 * bytes - tenths * unit;
    -unit <= 2 * (distance + lost) && 2 * (distance - lost) <= unit
}

/// Whether the binary unit at this place is one that `bytes` can be written in: the place is that of
/// the highest power of 1000 that `bytes` reaches, within a factor of two.
pub open spec fn is_unit_for(bytes: u64, place: nat) -> bool {
    &&& 1 <= place <= unit_letters().len()
    &&& place == 1 || pow(1000, place) <= 2 * bytes
    &&& bytes <= 2 * pow(1000, place + 1)
}

/// Whether `text` is a number of bytes, readable to people: the number itself if it is small, else
/// the number in a binary unit of about its size, rounded to one decimal place.
pub open spec fn is_size_text(bytes: u64, text: Seq<char>) -> bool {
    if bytes < KIB {
        text == decimal_text(bytes as nat) + seq![' ', 'B']
    } else {
        exists|tenths: nat, place: nat|
            is_unit_for(bytes, place) && #[trigger] is_rounded(bytes, tenths, place) && text
                == scaled_text(tenths, place)
    }
}

/// `ByteSize::to_string_as`, with its flag set: the number of bytes if it is below 1024, else
/// the number in a binary unit, with one decimal place. The place of the unit is the whole part of
/// the logarithm of the number to the base 1000. That is taken in floating point, with a precision
/// that is up to the machine: no more is claimed than that it is right within a factor of two.
#[verifier::external_body]
fn size_to_text(bytes: u64) -> (text: String)
    ensures
        is_size_text(bytes, text@),
{
    ByteSize::b(bytes).to_string_as(true)
}

/// `text`, and behind it a number of units, unless that is zero.
pub open spec fn with_item(text: Seq<char>, count: nat, unit: Seq<char>) -> Seq<char> {
    if count == 0 {
        text
    } else if text.len() == 0 {
        decimal_text(count) + unit
    } else {
        text.push(' ') + decimal_text(count) + unit
    }
}

/// A unit of which there are so many.
pub open spec fn plural(count: nat, unit: Seq<char>) -> Seq<char> {
    if count > 1 {
        unit.push('s')
    } else {
        unit
    }
}

/// A number of seconds in years of 365.25 days, months of 30.44 days, days, hours, minutes and
/// seconds, without those that there are none of.
pub open spec fn duration_text(seconds: nat) -> Seq<char> {
    let years = seconds / 31_557_600;
    let months = seconds % 31_557_600 / 2_630_016;
    let in_month = seconds % 31_557_600 % 2_630_016;
    let days = in_month / 86_400;
    let in_day = in_month % 86_400;
    if seconds == 0 {
        "0s"@
    } else {
        let date = with_item(
            with_item(
                with_item(Seq::empty(), years, plural(years, "year"@)),
                months,
                plural(months, "month"@),
            ),
            days,
            plural(days, "day"@),
        );
        with_item(
            with_item(with_item(date, in_day / 3_600, "h"@), in_day % 3_600 / 60, "m"@),
            in_day % 60,
            "s"@,
        )
    }
}

/// `humantime::format_duration`, of a number of whole seconds.
#[verifier::external_body]
fn duration_to_text(seconds: u64) -> (text: String)
    ensures
        text@ == duration_text(seconds as nat),
{
    humantime::format_duration(Duration::from_secs(seconds)).to_string()
}

/// A number of bytes, readable to people.
pub fn readable_size(bytes: u64) -> (text: String)
    ensures
        is_size_text(bytes, text@),
{
    size_to_text(bytes)
}

/// How long something has taken, in whole seconds, readable to people.
pub fn readable_elapsed(seconds: u64) -> (text: String)
    ensures
        text@ == duration_text(seconds as nat),
{
    duration_to_text(seconds)
}

/// How many bytes smaller than its original a transcode is, readable to people.
pub fn readable_savings<P: AsPath, Q: AsPath>(
    original: &VideoFile<P>,
    transcode: &VideoFile<Q>,
) -> (text: String)
    requires
        transcode.size <= original.size,
    ensures
        is_size_text((original.size - transcode.size) as u64, text@),
{
    size_to_text(original.size - transcode.size)
}

/// How much of a video of `nb_frames` frames is done.
pub open spec fn completion(frame: u32, nb_frames: Option<u64>) -> Completion {
    match nb_frames {
        Some(nb_frames) => Completion::Frames { frame, nb_frames },
        None => Completion::Unknown,
    }
}

/// What is told of an event of the transcode with this CRF, of a video of `nb_frames` frames.
pub fn transcode_progress(crf: u8, nb_frames: Option<u64>, event: EncoderEvent) -> (update:
    ProgressUpdate)
    ensures
        match event {
            EncoderEvent::Log(Severity::Error | Severity::Fatal, message) => update
                == ProgressUpdate::Error(message),
            EncoderEvent::Log(Severity::Warning, message) => update == ProgressUpdate::Warning(
                message,
            ),
            EncoderEvent::Log(_, _) | EncoderEvent::Other => update == ProgressUpdate::Nothing,
            EncoderEvent::Progress { frame, size_kb } => {
                &&& update matches ProgressUpdate::Show(line)
                &&& line.crf == crf
                &&& line.frame == frame
                &&& line.progress == completion(frame, nb_frames)
                &&& is_size_text((size_kb * 1000) as u64, line.size@)
            },
        },
{
    match event {
        EncoderEvent::Log(severity, message) => match severity {
            Severity::Error | Severity::Fatal => ProgressUpdate::Error(message),
            Severity::Warning => ProgressUpdate::Warning(message),
            Severity::Info | Severity::Unknown => ProgressUpdate::Nothing,
        },
        EncoderEvent::Progress { frame, size_kb } => {
            let progress = match nb_frames {
                Some(nb_frames) => Completion::Frames { frame, nb_frames },
                None => Completion::Unknown,
            };
            let size = size_to_text(size_kb as u64 * 1000);
            ProgressUpdate::Show(ProgressLine { crf, frame, progress, size })
        },
        EncoderEvent::Other => ProgressUpdate::Nothing,
    }
}

/// Errors, fatal ones too, are told as errors and warnings as warnings, each with its own message.
/// No other message is told.
pub proof fn law_only_errors_and_warnings_are_told(
    crf: u8,
    nb_frames: Option<u64>,
    severity: Severity,
    message: String,
    update: ProgressUpdate,
)
    requires
        call_ensures(
            transcode_progress,
            (crf, nb_frames, EncoderEvent::Log(severity, message)),
            update,
        ),
    ensures
        severity == Severity::Error || severity == Severity::Fatal ==> update
            == ProgressUpdate::Error(message),
        severity == Severity::Warning ==> update == ProgressUpdate::Warning(message),
        severity == Severity::Info || severity == Severity::Unknown ==> update
            == ProgressUpdate::Nothing,
{
}

/// Of progress, the CRF, the frame and the size in bytes are shown as they were reported, and how
/// much is done if it is known how many frames there are. Of any other event, nothing is told.
pub proof fn law_progress_is_shown_as_reported(
    crf: u8,
    nb_frames: Option<u64>,
    frame: u32,
    size_kb: u32,
    update: ProgressUpdate,
    other: ProgressUpdate,
)
    requires
        call_ensures(
            transcode_progress,
            (crf, nb_frames, EncoderEvent::Progress { frame, size_kb }),
            update,
        ),
        call_ensures(transcode_progress, (crf, nb_frames, EncoderEvent::Other), other),
    ensures
        update is Show,
        update->Show_0.crf == crf,
        update->Show_0.frame == frame,
        is_size_text((1000 * size_kb) as u64, update->Show_0.size@),
        nb_frames is None ==> update->Show_0.progress == Completion::Unknown,
        nb_frames matches Some(total) ==> update->Show_0.progress == (Completion::Frames {
            frame,
            nb_frames: total,
        }),
        other == ProgressUpdate::Nothing,
{
}

/// What a transcode saves is what it is smaller by than its original.
pub proof fn law_savings_are_the_difference<P: AsPath, Q: AsPath>(
    original: &VideoFile<P>,
    transcode: &VideoFile<Q>,
    saved: u64,
    text: String,
)
    requires
        transcode.size + saved == original.size,
        call_ensures(readable_savings::<P, Q>, (original, transcode), text),
    ensures
        is_size_text(saved, text@),
{
}

/// A number of bytes and a number of seconds are written as such.
pub proof fn law_sizes_and_times_are_written(bytes: u64, size: String, seconds: u64, time: String)
    requires
        call_ensures(readable_size, (bytes,), size),
        call_ensures(readable_elapsed, (seconds,), time),
    ensures
        is_size_text(bytes, size@),
        bytes < 1024 ==> size@ == decimal_text(bytes as nat) + seq![' ', 'B'],
        time@ == duration_text(seconds as nat),
        seconds == 0 ==> time@ == "0s"@,
        0 < seconds < 60 ==> time@ == decimal_text(seconds as nat) + "s"@,
{
    if 0 < seconds < 60 {
        assert(seconds as nat % 31_557_600 % 2_630_016 % 86_400 % 3_600 / 60 == 0);
        assert(seconds as nat % 31_557_600 % 2_630_016 % 86_400 % 60 == seconds);
    }
}

} // verus!
