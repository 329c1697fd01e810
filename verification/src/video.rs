//! What is known of a video file, and how that is read from a probe of it.

use std::hash::{Hash, Hasher};
use std::path::Path;

use vstd::prelude::*;
use vstd::string::*;
use vstd::utf8::*;

use crate::paths::{eq_as_path, feeds, hash_as_path, path_parts, valid_parts, AsPath};

verus! {

/// The codec of a video stream.
#[derive(Debug, PartialEq, Eq, Copy, Clone, Hash, Structural)]
pub enum VideoCodec {
    AV1,
    Hevc,
    Other,
}

/// The codec of an audio stream.
#[derive(Debug, PartialEq, Eq, Copy, Clone, Hash, Structural)]
pub enum AudioCodec {
    Aac,
    Other,
}

/// What a probe found out about one stream of a file.
#[derive(Debug)]
pub struct ProbedStream {
    pub codec_type: Option<String>,
    pub codec_name: Option<String>,
    pub nb_frames: Option<String>,
}

/// What a probe found out about a file.
#[derive(Debug)]
pub struct ProbeReport {
    pub streams: Vec<ProbedStream>,
    /// The size of the file in bytes, in decimal.
    pub size: String,
}

/// Why a file cannot be used as a video.
#[derive(Clone, Copy, Debug, PartialEq, Eq, Structural)]
pub enum AnalyzeError {
    /// The file could not be probed.
    ProbeFailed,
    /// The file has no video stream.
    NoVideoStream,
    /// The video stream has no codec name.
    NoCodecName,
    /// The size of the file is no number.
    BadSize,
}

/// A video file.
#[derive(Debug)]
pub struct VideoFile<P: AsPath> {
    pub path: P,
    pub video_codec: VideoCodec,
    pub audio_codec: Option<AudioCodec>,
    pub nb_frames: Option<u64>,
    pub size: u64,
}

/// Whether `c` is a decimal digit.
pub open spec fn is_digit(c: char) -> bool {
    '0' <= c <= '9'
}

/// The number that a sequence of digits stands for.
pub open spec fn digits_value(digits: Seq<char>) -> nat
    decreases digits.len(),
{
    if digits.len() == 0 {
        0
    } else {
        10 * digits_value(digits.drop_last()) + (digits.last() as nat - '0' as nat) as nat
    }
}

/// The digits of a number that may carry a plus sign.
pub open spec fn unsigned_digits(text: Seq<char>) -> Seq<char> {
    if text.len() > 0 && text[0] == '+' {
        text.skip(1)
    } else {
        text
    }
}

/// The number that `text` stands for: at least one decimal digit, nothing but digits after an
/// optional plus sign, and a value that fits.
pub open spec fn number(text: Seq<char>) -> Option<u64> {
    let digits = unsigned_digits(text);
    if digits.len() > 0 && (forall|i: int| 0 <= i < digits.len() ==> is_digit(#[trigger] digits[i]))
        && digits_value(digits) <= u64::MAX {
        Some(digits_value(digits) as u64)
    } else {
        None
    }
}

/// Whether a probe takes `stream` to be of this type.
pub open spec fn is_of_type(stream: ProbedStream, codec_type: Seq<char>) -> bool {
    stream.codec_type matches Some(found) && found@ == codec_type
}

/// The first stream of this type.
pub open spec fn primary_stream(
    streams: Seq<ProbedStream>,
    codec_type: Seq<char>,
) -> Option<ProbedStream>
    decreases streams.len(),
{
    if streams.len() == 0 {
        None
    } else if is_of_type(streams[0], codec_type) {
        Some(streams[0])
    } else {
        primary_stream(streams.skip(1), codec_type)
    }
}

/// The video codec that a probe calls `name`.
pub open spec fn video_codec_named(name: Seq<char>) -> VideoCodec {
    if name == "av1"@ {
        VideoCodec::AV1
    } else if name == "hevc"@ {
        VideoCodec::Hevc
    } else {
        VideoCodec::Other
    }
}

/// The audio codec that a probe calls `name`.
pub open spec fn audio_codec_named(name: Seq<char>) -> AudioCodec {
    if name == "aac"@ {
        AudioCodec::Aac
    } else {
        AudioCodec::Other
    }
}

/// The codec of the first audio stream, if there is one and it has a name.
pub open spec fn audio_codec_of(streams: Seq<ProbedStream>) -> Option<AudioCodec> {
    match primary_stream(streams, "audio"@) {
        Some(stream) => match stream.codec_name {
            Some(name) => Some(audio_codec_named(name@)),
            None => None,
        },
        None => None,
    }
}

/// The number of frames that a stream is said to have, where that is a number.
pub open spec fn frames_of(stream: ProbedStream) -> Option<u64> {
    match stream.nb_frames {
        Some(text) => number(text@),
        None => None,
    }
}

/// A longer sequence of digits stands for no smaller number.
proof fn lemma_digits_value_grows(digits: Seq<char>, i: int)
    requires
        0 <= i <= digits.len(),
    ensures
        digits_value(digits.take(i)) <= digits_value(digits),
    decreases digits.len(),
{
    if i == digits.len() {
        assert(digits.take(i) =~= digits);
    } else {
        lemma_digits_value_grows(digits.drop_last(), i);
        assert(digits.drop_last().take(i) =~= digits.take(i));
    }
}

/// Reads a number.
fn parse_number(text: &str) -> (parsed: Option<u64>)
    ensures
        parsed == number(text@),
{
    if !text.is_ascii() {
        proof {
            let digits = unsigned_digits(text@);
            if number(text@) is Some {
                assert forall|i: int| 0 <= i < text@.len() implies '\0' <= #[trigger] text@[i]
                    <= '\u{7f}' by {
                    if text@[0] == '+' {
                        if i > 0 {
                            assert(digits[i - 1] == text@[i]);
                            assert(is_digit(digits[i - 1]));
                        }
                    } else {
                        assert(is_digit(digits[i]));
                    }
                }
                assert(is_ascii_chars(text@));
            }
        }
        return None;
    }
    let bytes = text.as_bytes();
    let ghost digits = unsigned_digits(text@);
    let start: usize = if bytes.len() > 0 && bytes[0] == 43u8 {
        1
    } else {
        0
    };
    assert(start == text@.len() - digits.len());
    if bytes.len() == start {
        return None;
    }
    let mut value: u64 = 0;
    let mut i: usize = start;
    while i < bytes.len()
        invariant
            is_ascii(text),
            bytes@ == text.spec_bytes(),
            digits == unsigned_digits(text@),
            start == text@.len() - digits.len(),
            start <= i <= bytes@.len() == text@.len(),
            digits.len() > 0,
            forall|j: int| 0 <= j < digits.len() ==> digits[j] == text@[start + j],
            forall|j: int| 0 <= j < i - start ==> is_digit(#[trigger] digits[j]),
            value == digits_value(digits.take(i - start)),
        decreases bytes.len() - i,
    {
        let byte = bytes[i];
        let ghost seen = digits.take(i - start + 1);
        proof {
            assert(byte == text@[i as int] as u8);
            assert(digits[i - start] == text@[i as int]);
            assert(seen.drop_last() =~= digits.take(i - start));
            assert(seen.last() == text@[i as int]);
        }
        if byte < 48u8 || byte > 57u8 {
            assert(!is_digit(digits[i - start]));
            return None;
        }
        let digit: u64 = (byte - 48u8) as u64;
        assert(digits_value(seen) == 10 * value + digit);
        proof {
            lemma_digits_value_grows(digits, i - start + 1);
        }
        value = match value.checked_mul(10) {
            Some(shifted) => match shifted.checked_add(digit) {
                Some(sum) => sum,
                None => {
                    return None;
                },
            },
            None => {
                return None;
            },
        };
        i = i + 1;
    }
    assert(digits.take(digits.len() as int) =~= digits);
    Some(value)
}

/// Whether `text` reads `literal`.
fn reads(text: &String, literal: &str) -> (same: bool)
    ensures
        same == (text@ == literal@),
{
    *text == literal.to_owned()
}

/// Finds the first stream of this type.
fn find_stream<'a>(streams: &'a Vec<ProbedStream>, codec_type: &str) -> (found: Option<
    &'a ProbedStream,
>)
    ensures
        found matches Some(stream) ==> primary_stream(streams@, codec_type@) == Some(*stream),
        found is None ==> primary_stream(streams@, codec_type@) is None,
{
    let mut i: usize = 0;
    assert(streams@.skip(0) =~= streams@);
    while i < streams.len()
        invariant
            i <= streams@.len(),
            primary_stream(streams@, codec_type@) == primary_stream(
                streams@.skip(i as int),
                codec_type@,
            ),
        decreases streams.len() - i,
    {
        let stream = &streams[i];
        proof {
            assert(streams@.skip(i as int)[0] == streams@[i as int]);
            assert(streams@.skip(i as int).skip(1) =~= streams@.skip(i + 1));
        }
        if let Some(found) = &stream.codec_type {
            if reads(found, codec_type) {
                return Some(stream);
            }
        }
        i = i + 1;
    }
    None
}

impl<P: AsPath> VideoFile<P> {
    /// Takes from `report` what is needed to know of the video file at `path`.
    pub fn new(path: P, report: &ProbeReport) -> (read: Result<Self, AnalyzeError>)
        ensures
            match primary_stream(report.streams@, "video"@) {
                None => read == Err::<Self, _>(AnalyzeError::NoVideoStream),
                Some(stream) => match (stream.codec_name, number(report.size@)) {
                    (None, _) => read == Err::<Self, _>(AnalyzeError::NoCodecName),
                    (Some(_), None) => read == Err::<Self, _>(AnalyzeError::BadSize),
                    (Some(name), Some(size)) => read == Ok::<_, AnalyzeError>(
                        VideoFile {
                            path,
                            video_codec: video_codec_named(name@),
                            audio_codec: audio_codec_of(report.streams@),
                            nb_frames: frames_of(stream),
                            size,
                        },
                    ),
                },
            },
    {
        let primary_video_stream = match find_stream(&report.streams, "video") {
            Some(stream) => stream,
            None => {
                return Err(AnalyzeError::NoVideoStream);
            },
        };
        let video_codec = match &primary_video_stream.codec_name {
            Some(name) => if reads(name, "av1") {
                VideoCodec::AV1
            } else if reads(name, "hevc") {
                VideoCodec::Hevc
            } else {
                VideoCodec::Other
            },
            None => {
                return Err(AnalyzeError::NoCodecName);
            },
        };
        let audio_codec = match find_stream(&report.streams, "audio") {
            Some(stream) => match &stream.codec_name {
                Some(name) => if reads(name, "aac") {
                    Some(AudioCodec::Aac)
                } else {
                    Some(AudioCodec::Other)
                },
                None => None,
            },
            None => None,
        };
        let size = match parse_number(report.size.as_str()) {
            Some(size) => size,
            None => {
                return Err(AnalyzeError::BadSize);
            },
        };
        let nb_frames = match &primary_video_stream.nb_frames {
            Some(text) => parse_number(text.as_str()),
            None => None,
        };
        Ok(VideoFile { path, video_codec, audio_codec, nb_frames, size })
    }

    /// Where the file is.
    pub fn path(&self) -> (path: &Path)
        ensures
            path_parts(path) == self.path.parts(),
            valid_parts(path_parts(path)),
    {
        self.path.as_path()
    }
}

impl<P: AsPath> PartialEq for VideoFile<P> {
    fn eq(&self, other: &Self) -> (same: bool) {
        eq_as_path(&self.path, &other.path) && self.video_codec == other.video_codec
            && self.audio_codec == other.audio_codec && self.nb_frames == other.nb_frames
            && self.size == other.size
    }
}

impl<P: AsPath> vstd::std_specs::cmp::PartialEqSpecImpl for VideoFile<P> {
    open spec fn obeys_eq_spec() -> bool {
        true
    }

    open spec fn eq_spec(&self, other: &Self) -> bool {
        &&& self.path.parts() == other.path.parts()
        &&& self.video_codec == other.video_codec
        &&& self.audio_codec == other.audio_codec
        &&& self.nb_frames == other.nb_frames
        &&& self.size == other.size
    }
}

impl<P: AsPath> Eq for VideoFile<P> {

}

/// `Hash::hash`: feeds a value to the hasher, as its type does. Nothing is claimed of the hasher's
/// state: what a value feeds to it is not portable, and what a hasher makes of it is up to its
/// implementation.
#[verifier::external_body]
fn hash_value<T: Hash, H: Hasher>(value: &T, state: &mut H) {
    value.hash(state);
}

/// Whether `state` is a hasher that goes from what it is to what it becomes as one can when this
/// value is fed to it.
pub closed spec fn feeds_value<T: Hash, H: Hasher>(value: T, state: &mut H) -> bool {
    call_ensures(hash_value::<T, H>, (&value, state), ())
}

/// Feeds a value to a hasher, once.
fn feed_value<T: Hash, H: Hasher>(value: &T, state: &mut H)
    ensures
        exists|fed: &mut H| #[trigger]
            feeds_value(*value, fed) && *fed == *old(state) && *final(fed) == *final(state),
{
    let feed = hash_value::<T, H>;
    feed(value, state);
    assert(forall|fed: &mut H| #[trigger]
        call_ensures(feed, (value, fed), ()) ==> feeds_value(*value, fed));
}

impl<P: AsPath> Hash for VideoFile<P> {
    /// Feeds the path, the codecs, the number of frames and the size to a hasher, in this order.
    fn hash<H: Hasher>(&self, state: &mut H)
        ensures
            exists|path: &mut H, video: &mut H, audio: &mut H, frames: &mut H, size: &mut H|
                {
                    &&& #[trigger] feeds(self.path.parts(), path)
                    &&& #[trigger] feeds_value(self.video_codec, video)
                    &&& #[trigger] feeds_value(self.audio_codec, audio)
                    &&& #[trigger] feeds_value(self.nb_frames, frames)
                    &&& #[trigger] feeds_value(self.size, size)
                    &&& *path == *old(state)
                    &&& *video == *final(path)
                    &&& *audio == *final(video)
                    &&& *frames == *final(audio)
                    &&& *size == *final(frames)
                    &&& *final(state) == *final(size)
                },
    {
        hash_as_path(&self.path, state);
        feed_value(&self.video_codec, state);
        feed_value(&self.audio_codec, state);
        feed_value(&self.nb_frames, state);
        feed_value(&self.size, state);
    }
}

/// Whether stream number `at` is the first one of this type.
pub open spec fn is_first_of_type(
    streams: Seq<ProbedStream>,
    codec_type: Seq<char>,
    at: int,
) -> bool {
    &&& 0 <= at < streams.len()
    &&& streams[at].codec_type is Some && streams[at].codec_type.unwrap()@ == codec_type
    &&& forall|i: int|
        0 <= i < at && (#[trigger] streams[i]).codec_type is Some
            ==> streams[i].codec_type.unwrap()@ != codec_type
}

/// Whether there is no stream of this type.
pub open spec fn lacks_type(streams: Seq<ProbedStream>, codec_type: Seq<char>) -> bool {
    forall|i: int|
        0 <= i < streams.len() && (#[trigger] streams[i]).codec_type is Some
            ==> streams[i].codec_type.unwrap()@ != codec_type
}

/// The stream that counts is the first one of its type, and there is one exactly if there is a
/// stream of that type.
pub proof fn law_first_stream_counts(streams: Seq<ProbedStream>, codec_type: Seq<char>, at: int)
    ensures
        is_first_of_type(streams, codec_type, at) ==> primary_stream(streams, codec_type) == Some(
            streams[at],
        ),
        primary_stream(streams, codec_type) is None <==> lacks_type(streams, codec_type),
    decreases streams.len(),
{
    if streams.len() > 0 {
        let rest = streams.skip(1);
        law_first_stream_counts(rest, codec_type, at - 1);
        assert(forall|i: int| 0 <= i < rest.len() ==> #[trigger] rest[i] == streams[i + 1]);
        assert(forall|i: int| 1 <= i < streams.len() ==> #[trigger] streams[i] == rest[i - 1]);
        if is_first_of_type(streams, codec_type, at) {
            if at == 0 {
                assert(is_of_type(streams[0], codec_type));
            } else {
                assert(is_first_of_type(rest, codec_type, at - 1));
            }
        }
        if !is_of_type(streams[0], codec_type) {
            if lacks_type(rest, codec_type) {
                assert forall|i: int|
                    0 <= i < streams.len() && (#[trigger] streams[i]).codec_type is Some implies
                    streams[i].codec_type.unwrap()@ != codec_type by {
                    if i > 0 {
                        assert(rest[i - 1] == streams[i]);
                    }
                }
            }
            if lacks_type(streams, codec_type) {
                assert forall|i: int|
                    0 <= i < rest.len() && (#[trigger] rest[i]).codec_type is Some implies
                    rest[i].codec_type.unwrap()@ != codec_type by {
                    assert(rest[i] == streams[i + 1]);
                }
            }
        }
    }
}

/// What is read of a video is its own path, the codec that its first video stream is named after,
/// that stream's number of frames, and its size. It is AV1 exactly if the name is `av1`, and HEVC
/// exactly if the name is `hevc`.
pub proof fn law_video_is_read_from_first_video_stream<P: AsPath>(
    path: P,
    report: &ProbeReport,
    read: Result<VideoFile<P>, AnalyzeError>,
    at: int,
)
    requires
        call_ensures(VideoFile::<P>::new, (path, report), read),
        is_first_of_type(report.streams@, "video"@, at),
        report.streams@[at].codec_name is Some,
        number(report.size@) is Some,
    ensures
        read is Ok,
        read.unwrap().path == path,
        read.unwrap().video_codec == VideoCodec::AV1 <==> report.streams@[at].codec_name.unwrap()@
            == "av1"@,
        read.unwrap().video_codec == VideoCodec::Hevc <==> report.streams@[at].codec_name.unwrap()@
            == "hevc"@,
        read.unwrap().nb_frames == match report.streams@[at].nb_frames {
            Some(frames) => number(frames@),
            None => None,
        },
        Some(read.unwrap().size) == number(report.size@),
{
    law_first_stream_counts(report.streams@, "video"@, at);
    reveal_strlit("av1");
    reveal_strlit("hevc");
    assert("av1"@.len() != "hevc"@.len());
}

/// The audio codec of a video is the one that its first audio stream is named after: AAC exactly if
/// the name is `aac`. Without an audio stream, or without a name of it, nothing is known.
pub proof fn law_audio_is_read_from_first_audio_stream<P: AsPath>(
    path: P,
    report: &ProbeReport,
    read: Result<VideoFile<P>, AnalyzeError>,
    at: int,
)
    requires
        call_ensures(VideoFile::<P>::new, (path, report), read),
        read is Ok,
    ensures
        lacks_type(report.streams@, "audio"@) ==> read.unwrap().audio_codec is None,
        is_first_of_type(report.streams@, "audio"@, at) ==> match report.streams@[at].codec_name {
            None => read.unwrap().audio_codec is None,
            Some(name) => {
                &&& read.unwrap().audio_codec is Some
                &&& read.unwrap().audio_codec == Some(AudioCodec::Aac) <==> name@ == "aac"@
            },
        },
{
    law_first_stream_counts(report.streams@, "audio"@, at);
}

/// A report is refused exactly if it has no video stream, if the first one has no codec name, or if
/// the size is no number, and for the first of these reasons that holds.
pub proof fn law_unusable_reports_are_refused<P: AsPath>(
    path: P,
    report: &ProbeReport,
    read: Result<VideoFile<P>, AnalyzeError>,
    at: int,
)
    requires
        call_ensures(VideoFile::<P>::new, (path, report), read),
        lacks_type(report.streams@, "video"@) || is_first_of_type(report.streams@, "video"@, at),
    ensures
        lacks_type(report.streams@, "video"@) <==> read == Err::<VideoFile<P>, _>(
            AnalyzeError::NoVideoStream,
        ),
        !lacks_type(report.streams@, "video"@) ==> {
            let named = report.streams@[at].codec_name is Some;
            let sized = number(report.size@) is Some;
            &&& !named <==> read == Err::<VideoFile<P>, _>(AnalyzeError::NoCodecName)
            &&& named && !sized <==> read == Err::<VideoFile<P>, _>(AnalyzeError::BadSize)
            &&& named && sized <==> read is Ok
        },
{
    law_first_stream_counts(report.streams@, "video"@, at);
}

/// A codec is named exactly by its own name.
pub proof fn law_codecs_are_named(name: Seq<char>)
    ensures
        video_codec_named(name) == VideoCodec::AV1 <==> name == "av1"@,
        video_codec_named(name) == VideoCodec::Hevc <==> name == "hevc"@,
        audio_codec_named(name) == AudioCodec::Aac <==> name == "aac"@,
{
    reveal_strlit("av1");
    reveal_strlit("hevc");
    assert("av1"@.len() != "hevc"@.len());
}

/// Behind a number, another digit makes it ten times as large and adds its own value. Anything but
/// a digit makes it no number, and so does a value that does not fit.
pub proof fn law_numbers_are_read_digit_by_digit(text: Seq<char>, value: u64, next: char)
    requires
        number(text) == Some(value),
    ensures
        ({
            let more = number(text.push(next));
            let digit = next as int - '0' as int;
            if 0 <= digit <= 9 && 10 * value + digit <= u64::MAX {
                more matches Some(longer) && longer == 10 * value + digit
            } else {
                more is None
            }
        }),
{
    let digits = unsigned_digits(text);
    let longer = unsigned_digits(text.push(next));
    assert(longer =~= digits.push(next));
    assert(longer.drop_last() =~= digits);
    assert(longer.last() == next);
    assert(forall|i: int| 0 <= i < digits.len() ==> longer[i] == digits[i]);
    assert(longer[digits.len() as int] == next);
    if is_digit(next) {
        assert forall|i: int| 0 <= i < longer.len() implies is_digit(#[trigger] longer[i]) by {
            if i < digits.len() {
                assert(is_digit(digits[i]));
            }
        }
    }
}

/// A number has a digit. A digit alone is a number, and a plus sign before one makes no
/// difference.
pub proof fn law_numbers_start_with_a_digit(first: char)
    ensures
        number(Seq::empty()) is None,
        number(seq!['+']) is None,
        ({
            let digit = first as int - '0' as int;
            &&& 0 <= digit <= 9 ==> number(seq![first]) == Some(digit as u64) && number(
                seq!['+', first],
            ) == Some(digit as u64)
            &&& !(0 <= digit <= 9) ==> number(seq![first]) is None && number(
                seq!['+', first],
            ) is None
        }),
{
    let one = seq![first];
    assert(seq!['+', first].skip(1) =~= one);
    assert(seq!['+'].skip(1) =~= Seq::<char>::empty());
    assert(one.drop_last() =~= Seq::<char>::empty());
    assert(digits_value(one.drop_last()) == 0);
    assert(one[0] == first);
    assert(one.last() == first);
}

/// Videos are equal exactly if their paths have the same components and all else that is known of
/// them is the same.
pub proof fn law_videos_are_equal_by_content<P: AsPath>(a: VideoFile<P>, b: VideoFile<P>)
    ensures
        vstd::std_specs::cmp::PartialEqSpec::eq_spec(&a, &b) <==> {
            &&& a.path.parts() == b.path.parts()
            &&& a.video_codec == b.video_codec
            &&& a.audio_codec == b.audio_codec
            &&& a.nb_frames == b.nb_frames
            &&& a.size == b.size
        },
{
}

/// What is no number does not become one behind another character, but for nothing at all and for a
/// plus sign alone.
pub proof fn law_no_number_begins_with_anything_else(text: Seq<char>, next: char)
    requires
        number(text) is None,
        text.len() > 0,
        text != seq!['+'],
    ensures
        number(text.push(next)) is None,
{
    let digits = unsigned_digits(text);
    let longer = unsigned_digits(text.push(next));
    assert(longer =~= digits.push(next));
    assert(longer.drop_last() =~= digits);
    if text[0] == '+' && text.len() == 1 {
        assert(text =~= seq!['+']);
    }
    assert(digits.len() > 0);
    if number(text.push(next)) is Some {
        assert forall|i: int| 0 <= i < digits.len() implies is_digit(#[trigger] digits[i]) by {
            assert(digits[i] == longer[i]);
        }
        assert(digits_value(longer) >= digits_value(digits));
    }
}

} // verus!
