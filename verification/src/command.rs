//! The encoder command of a transcode.

use std::path::Path;

use ffmpeg_sidecar::command::FfmpegCommand;
use vstd::prelude::*;
use vstd::string::*;

use crate::config::Hwaccel;
use crate::paths::{path_parts, AsPath, PathPart};
use crate::video::{
    digits_value, is_digit, number, unsigned_digits, AudioCodec, VideoCodec, VideoFile,
};

verus! {

/// One argument of a command.
pub enum CommandArg {
    Text(Seq<char>),
    /// A path with these components.
    File(Seq<PathPart>),
}

/// `ffmpeg_sidecar::command::FfmpegCommand`, a program and its list of arguments.
#[verifier::external_type_specification]
#[verifier::external_body]
pub struct ExFfmpegCommand(ffmpeg_sidecar::command::FfmpegCommand);

/// The program that a command runs.
pub uninterp spec fn command_program(command: FfmpegCommand) -> Seq<char>;

/// The arguments that a command passes to its program.
pub uninterp spec fn command_args(command: FfmpegCommand) -> Seq<CommandArg>;

/// `texts` as arguments.
pub open spec fn text_args(texts: Seq<&str>) -> Seq<CommandArg> {
    Seq::new(texts.len(), |i: int| CommandArg::Text(texts[i]@))
}

/// `FfmpegCommand::new_with_path`: a command that runs this program and, so far, only sets the
/// form of its log.
#[verifier::external_body]
fn new_command(program: &str) -> (command: FfmpegCommand)
    ensures
        command_program(command) == program@,
        command_args(command) == text_args(seq!["-loglevel", "level+info"]),
{
    FfmpegCommand::new_with_path(program)
}

/// `FfmpegCommand::args`: appends the arguments.
#[verifier::external_body]
fn add_args(command: &mut FfmpegCommand, args: &[&str])
    ensures
        command_program(*final(command)) == command_program(*old(command)),
        command_args(*final(command)) == command_args(*old(command)) + text_args(args@),
{
    command.args(args);
}

/// `FfmpegCommand::arg`: appends the path as an argument.
#[verifier::external_body]
fn add_file(command: &mut FfmpegCommand, file: &Path)
    ensures
        command_program(*final(command)) == command_program(*old(command)),
        command_args(*final(command)) == command_args(*old(command)).push(
            CommandArg::File(path_parts(file)),
        ),
{
    command.arg(file);
}

/// `FfmpegCommand::hwaccel`: appends `-hwaccel` and the method.
#[verifier::external_body]
fn set_hwaccel(command: &mut FfmpegCommand, method: &str)
    ensures
        command_program(*final(command)) == command_program(*old(command)),
        command_args(*final(command)) == command_args(*old(command)) + text_args(
            seq!["-hwaccel", method],
        ),
{
    command.hwaccel(method);
}

/// `FfmpegCommand::format`: appends `-f` and the format.
#[verifier::external_body]
fn set_format(command: &mut FfmpegCommand, format: &str)
    ensures
        command_program(*final(command)) == command_program(*old(command)),
        command_args(*final(command)) == command_args(*old(command)) + text_args(seq!["-f", format]),
{
    command.format(format);
}

/// `FfmpegCommand::codec_video`: appends `-c:v` and the codec.
#[verifier::external_body]
fn set_codec_video(command: &mut FfmpegCommand, codec: &str)
    ensures
        command_program(*final(command)) == command_program(*old(command)),
        command_args(*final(command)) == command_args(*old(command)) + text_args(seq!["-c:v", codec]),
{
    command.codec_video(codec);
}

/// `FfmpegCommand::codec_audio`: appends `-c:a` and the codec.
#[verifier::external_body]
fn set_codec_audio(command: &mut FfmpegCommand, codec: &str)
    ensures
        command_program(*final(command)) == command_program(*old(command)),
        command_args(*final(command)) == command_args(*old(command)) + text_args(seq!["-c:a", codec]),
{
    command.codec_audio(codec);
}

/// The character of a decimal digit.
pub open spec fn digit_char(digit: nat) -> char {
    (48 + digit) as char
}

/// A number in decimal.
pub open spec fn decimal_text(number: nat) -> Seq<char>
    decreases number,
{
    if number < 10 {
        seq![digit_char(number)]
    } else {
        decimal_text(number / 10).push(digit_char(number % 10))
    }
}

/// A decimal digit.
fn digit_text(digit: u8) -> (text: &'static str)
    requires
        digit < 10,
    ensures
        text@ == seq![digit_char(digit as nat)],
{
    proof {
        reveal_strlit("0");
        reveal_strlit("1");
        reveal_strlit("2");
        reveal_strlit("3");
        reveal_strlit("4");
        reveal_strlit("5");
        reveal_strlit("6");
        reveal_strlit("7");
        reveal_strlit("8");
        reveal_strlit("9");
    }
    match digit {
        0 => "0",
        1 => "1",
        2 => "2",
        3 => "3",
        4 => "4",
        5 => "5",
        6 => "6",
        7 => "7",
        8 => "8",
        _ => "9",
    }
}

/// Writes a number in decimal.
fn decimal(number: u8) -> (text: String)
    ensures
        text@ == decimal_text(number as nat),
    decreases number,
{
    if number < 10 {
        digit_text(number).to_owned()
    } else {
        let mut text = decimal(number / 10);
        text.append(digit_text(number % 10));
        text
    }
}

/// The arguments that select the video codec: a stream that has the codec already is copied.
pub open spec fn video_args(current: VideoCodec, desired: VideoCodec, crf: u8) -> Seq<CommandArg> {
    if current == desired {
        text_args(seq!["-c:v", "copy"])
    } else {
        text_args(seq!["-c:v", "libsvtav1", "-preset", "5", "-crf"]).push(
            CommandArg::Text(decimal_text(crf as nat)),
        ) + text_args(
            seq![
                "-sc_detection",
                "-la_depth",
                "120",
                "-svtav1-params",
                "tune=0:film-grain=8",
            ],
        )
    }
}

/// The arguments that select the audio codec: a stream that has the codec already is copied, and
/// so is one that nothing is known of.
pub open spec fn audio_args(current: Option<AudioCodec>, desired: AudioCodec) -> Seq<CommandArg> {
    if current is None || current == Some(desired) {
        text_args(seq!["-c:a", "copy"])
    } else {
        text_args(seq!["-c:a", "libfdk_aac", "-vbr", "3"])
    }
}

/// Whether there is an encoder for what has to be encoded.
pub open spec fn can_encode(
    video: VideoCodec,
    audio: Option<AudioCodec>,
    vcodec: VideoCodec,
    acodec: AudioCodec,
) -> bool {
    &&& video == vcodec || vcodec == VideoCodec::AV1
    &&& audio is None || audio == Some(acodec) || acodec == AudioCodec::Aac
}

/// All arguments of a transcode.
pub open spec fn transcode_args(
    source: Seq<PathPart>,
    video: VideoCodec,
    audio: Option<AudioCodec>,
    dst: Seq<PathPart>,
    vcodec: VideoCodec,
    acodec: AudioCodec,
    crf: u8,
    hwaccel: Hwaccel,
) -> Seq<CommandArg> {
    text_args(seq!["-loglevel", "level+info", "-y", "-threads", "0", "-hwaccel"]).push(
        CommandArg::Text(hwaccel.label()),
    ).push(CommandArg::Text("-i"@)).push(CommandArg::File(source)) + text_args(
        seq!["-f", "matroska", "-c:s", "copy"],
    ) + video_args(video, vcodec, crf) + audio_args(audio, acodec) + seq![CommandArg::File(dst)]
}

impl<P: AsPath> VideoFile<P> {
    /// The command that transcodes the video to `dst` with the encoder at `ffmpeg`.
    pub fn transcode_command(
        &self,
        ffmpeg: &str,
        dst: &Path,
        vcodec: VideoCodec,
        acodec: AudioCodec,
        crf: u8,
        hwaccel: Hwaccel,
    ) -> (command: FfmpegCommand)
        requires
            can_encode(self.video_codec, self.audio_codec, vcodec, acodec),
        ensures
            command_program(command) == ffmpeg@,
            command_args(command) == transcode_args(
                self.path.parts(),
                self.video_codec,
                self.audio_codec,
                path_parts(dst),
                vcodec,
                acodec,
                crf,
                hwaccel,
            ),
    {
        let mut transcoder = new_command(ffmpeg);
        add_args(&mut transcoder, &["-y"]);
        add_args(&mut transcoder, &["-threads", "0"]);
        set_hwaccel(&mut transcoder, hwaccel.name());
        add_args(&mut transcoder, &["-i"]);
        add_file(&mut transcoder, self.path());
        set_format(&mut transcoder, "matroska");
        add_args(&mut transcoder, &["-c:s", "copy"]);

        if self.video_codec == vcodec {
            set_codec_video(&mut transcoder, "copy");
        } else {
            let crf_text = decimal(crf);
            set_codec_video(&mut transcoder, "libsvtav1");
            add_args(
                &mut transcoder,
                &[
                    "-preset",
                    "5",
                    "-crf",
                    crf_text.as_str(),
                    "-sc_detection",
                    "-la_depth",
                    "120",
                    "-svtav1-params",
                    "tune=0:film-grain=8",
                ],
            );
        }

        let copy_audio = match self.audio_codec {
            None => true,
            Some(current) => current == acodec,
        };
        if copy_audio {
            set_codec_audio(&mut transcoder, "copy");
        } else {
            set_codec_audio(&mut transcoder, "libfdk_aac");
            add_args(&mut transcoder, &["-vbr", "3"]);
        }

        add_file(&mut transcoder, dst);
        transcoder
    }
}

/// Whether `arg` is this text.
pub open spec fn says(arg: CommandArg, text: &str) -> bool {
    arg == CommandArg::Text(text@)
}

/// The text of a number is read back as that number. It holds nothing but digits, and no zero
/// before them.
pub proof fn law_decimal_is_read_back(value: nat)
    ensures
        decimal_text(value).len() > 0,
        forall|i: int|
            0 <= i < decimal_text(value).len() ==> is_digit(#[trigger] decimal_text(value)[i]),
        digits_value(decimal_text(value)) == value,
        value > 0 ==> decimal_text(value)[0] != '0',
        value <= u64::MAX ==> number(decimal_text(value)) == Some(value as u64),
    decreases value,
{
    let text = decimal_text(value);
    if value < 10 {
        assert(text.drop_last() =~= Seq::<char>::empty());
        assert(text.last() == digit_char(value));
        assert(digits_value(text.drop_last()) == 0);
        assert(digit_char(value) as nat == 48 + value);
    } else {
        law_decimal_is_read_back(value / 10);
        assert(text.drop_last() =~= decimal_text(value / 10));
        assert(text.last() == digit_char(value % 10));
        assert(digit_char(value % 10) as nat == 48 + value % 10);
        assert(text[0] == decimal_text(value / 10)[0]);
        assert forall|i: int| 0 <= i < text.len() implies is_digit(#[trigger] text[i]) by {
            if i < text.len() - 1 {
                assert(text[i] == decimal_text(value / 10)[i]);
            }
        }
    }
    assert(is_digit(text[0]));
    assert(unsigned_digits(text) == text);
}

/// The text of a number is no option.
proof fn lemma_decimal_is_no_option(value: nat, option: Seq<char>)
    requires
        option.len() > 0,
        option[0] == '-',
    ensures
        decimal_text(value) != option,
{
    law_decimal_is_read_back(value);
    assert(is_digit(decimal_text(value)[0]));
}

/// The name of an acceleration method is no option.
proof fn lemma_label_is_no_option(hwaccel: Hwaccel, option: Seq<char>)
    requires
        option.len() > 0,
        option[0] == '-',
    ensures
        hwaccel.label() != option,
{
    reveal_strlit("none");
    reveal_strlit("auto");
    reveal_strlit("vdpau");
    reveal_strlit("dxva2");
    reveal_strlit("d3d11va");
    reveal_strlit("vaapi");
    reveal_strlit("qsv");
}

/// A command overwrites what is there, uses all processors, decodes with the chosen method, reads
/// the source, writes Matroska, copies the subtitles, and writes to the destination, which comes
/// last.
pub proof fn law_command_reads_source_and_writes_destination(
    source: Seq<PathPart>,
    video: VideoCodec,
    audio: Option<AudioCodec>,
    dst: Seq<PathPart>,
    vcodec: VideoCodec,
    acodec: AudioCodec,
    crf: u8,
    hwaccel: Hwaccel,
)
    ensures
        ({
            let args = transcode_args(source, video, audio, dst, vcodec, acodec, crf, hwaccel);
            &&& args.len() >= 18
            &&& says(args[0], "-loglevel") && says(args[1], "level+info")
            &&& says(args[2], "-y")
            &&& says(args[3], "-threads") && says(args[4], "0")
            &&& says(args[5], "-hwaccel") && args[6] == CommandArg::Text(hwaccel.label())
            &&& says(args[7], "-i") && args[8] == CommandArg::File(source)
            &&& says(args[9], "-f") && says(args[10], "matroska")
            &&& says(args[11], "-c:s") && says(args[12], "copy")
            &&& args.last() == CommandArg::File(dst)
        }),
{
}

/// A video stream that has the codec already is copied. Any other is encoded as AV1, with the
/// given CRF, which the encoder reads as that number.
pub proof fn law_video_is_copied_or_encoded(
    source: Seq<PathPart>,
    video: VideoCodec,
    audio: Option<AudioCodec>,
    dst: Seq<PathPart>,
    vcodec: VideoCodec,
    acodec: AudioCodec,
    crf: u8,
    hwaccel: Hwaccel,
)
    ensures
        ({
            let args = transcode_args(source, video, audio, dst, vcodec, acodec, crf, hwaccel);
            &&& says(args[13], "-c:v")
            &&& video == vcodec ==> says(args[14], "copy") && says(args[15], "-c:a")
            &&& video != vcodec ==> {
                &&& says(args[14], "libsvtav1")
                &&& says(args[15], "-preset") && says(args[16], "5")
                &&& says(args[17], "-crf")
                &&& args[18] matches CommandArg::Text(text) && number(text) == Some(crf as u64)
                &&& args[18] == CommandArg::Text(decimal_text(crf as nat))
                &&& says(args[19], "-sc_detection")
                &&& says(args[20], "-la_depth") && says(args[21], "120")
                &&& says(args[22], "-svtav1-params") && says(args[23], "tune=0:film-grain=8")
                &&& says(args[24], "-c:a")
            }
        }),
{
    law_decimal_is_read_back(crf as nat);
}

/// How the audio is treated depends on its codec and the desired one alone: behind the video
/// arguments and before the destination stands that it is copied, if it has the codec or nothing is
/// known of it, or else that it is encoded.
pub proof fn law_audio_is_copied_or_encoded(
    source: Seq<PathPart>,
    video: VideoCodec,
    audio: Option<AudioCodec>,
    dst: Seq<PathPart>,
    vcodec: VideoCodec,
    acodec: AudioCodec,
    crf: u8,
    hwaccel: Hwaccel,
)
    ensures
        ({
            let args = transcode_args(source, video, audio, dst, vcodec, acodec, crf, hwaccel);
            let at: int = if video == vcodec {
                15
            } else {
                24
            };
            let kept = match audio {
                None => true,
                Some(current) => current == acodec,
            };
            &&& says(args[at], "-c:a")
            &&& kept ==> args.len() == at + 3 && says(args[at + 1], "copy")
            &&& !kept ==> args.len() == at + 5 && says(args[at + 1], "libfdk_aac") && says(
                args[at + 2],
                "-vbr",
            ) && says(args[at + 3], "3")
            &&& args[args.len() - 1] == CommandArg::File(dst)
        }),
{
}

/// Every command says once what becomes of the video, of the audio and of the subtitles, and drops
/// none of them.
pub proof fn law_no_stream_is_dropped(
    source: Seq<PathPart>,
    video: VideoCodec,
    audio: Option<AudioCodec>,
    dst: Seq<PathPart>,
    vcodec: VideoCodec,
    acodec: AudioCodec,
    crf: u8,
    hwaccel: Hwaccel,
    i: int,
)
    requires
        0 <= i < transcode_args(
            source,
            video,
            audio,
            dst,
            vcodec,
            acodec,
            crf,
            hwaccel,
        ).len(),
    ensures
        ({
            let arg = transcode_args(source, video, audio, dst, vcodec, acodec, crf, hwaccel)[i];
            &&& says(arg, "-c:s") <==> i == 11
            &&& says(arg, "-c:v") <==> i == 13
            &&& says(arg, "-c:a") <==> i == (if video == vcodec {
                15int
            } else {
                24int
            })
            &&& says(arg, "-i") <==> i == 7
            &&& !says(arg, "-vn") && !says(arg, "-an") && !says(arg, "-sn") && !says(arg, "-dn")
        }),
{
    law_command_reads_source_and_writes_destination(
        source,
        video,
        audio,
        dst,
        vcodec,
        acodec,
        crf,
        hwaccel,
    );
    law_video_is_copied_or_encoded(source, video, audio, dst, vcodec, acodec, crf, hwaccel);
    law_audio_is_copied_or_encoded(source, video, audio, dst, vcodec, acodec, crf, hwaccel);
    reveal_strlit("-loglevel");
    reveal_strlit("level+info");
    reveal_strlit("-y");
    reveal_strlit("-threads");
    reveal_strlit("0");
    reveal_strlit("-hwaccel");
    reveal_strlit("-i");
    reveal_strlit("-f");
    reveal_strlit("matroska");
    reveal_strlit("-c:s");
    reveal_strlit("-c:v");
    reveal_strlit("-c:a");
    reveal_strlit("copy");
    reveal_strlit("libsvtav1");
    reveal_strlit("-preset");
    reveal_strlit("5");
    reveal_strlit("-crf");
    reveal_strlit("-sc_detection");
    reveal_strlit("-la_depth");
    reveal_strlit("120");
    reveal_strlit("-svtav1-params");
    reveal_strlit("tune=0:film-grain=8");
    reveal_strlit("libfdk_aac");
    reveal_strlit("-vbr");
    reveal_strlit("3");
    reveal_strlit("-vn");
    reveal_strlit("-an");
    reveal_strlit("-sn");
    reveal_strlit("-dn");
    assert("-c:s"@[0] == '-' && "-c:s"@[1] == 'c' && "-c:s"@[3] == 's');
    assert("-c:v"@[0] == '-' && "-c:v"@[1] == 'c' && "-c:v"@[3] == 'v');
    assert("-c:a"@[0] == '-' && "-c:a"@[1] == 'c' && "-c:a"@[3] == 'a');
    assert("copy"@[0] == 'c' && "-vbr"@[1] == 'v' && "-crf"@[3] == 'f');
    assert("-i"@[1] == 'i' && "-y"@[1] == 'y' && "-f"@[1] == 'f');
    assert("-i"@[0] == '-' && "-vn"@[0] == '-' && "-an"@[0] == '-');
    assert("-sn"@[0] == '-' && "-dn"@[0] == '-' && "120"@[0] == '1');
    assert("-vn"@.len() == 3 && "-an"@.len() == 3 && "-sn"@.len() == 3 && "-dn"@.len() == 3);
    lemma_label_is_no_option(hwaccel, "-c:s"@);
    lemma_label_is_no_option(hwaccel, "-c:v"@);
    lemma_label_is_no_option(hwaccel, "-c:a"@);
    lemma_label_is_no_option(hwaccel, "-i"@);
    lemma_label_is_no_option(hwaccel, "-vn"@);
    lemma_label_is_no_option(hwaccel, "-an"@);
    lemma_label_is_no_option(hwaccel, "-sn"@);
    lemma_label_is_no_option(hwaccel, "-dn"@);
    lemma_decimal_is_no_option(crf as nat, "-c:s"@);
    lemma_decimal_is_no_option(crf as nat, "-c:v"@);
    lemma_decimal_is_no_option(crf as nat, "-c:a"@);
    lemma_decimal_is_no_option(crf as nat, "-i"@);
    lemma_decimal_is_no_option(crf as nat, "-vn"@);
    lemma_decimal_is_no_option(crf as nat, "-an"@);
    lemma_decimal_is_no_option(crf as nat, "-sn"@);
    lemma_decimal_is_no_option(crf as nat, "-dn"@);
    let args = transcode_args(source, video, audio, dst, vcodec, acodec, crf, hwaccel);
    assert(args.len() <= 29);
    if i <= 12 {
        assert(i == 0 || i == 1 || i == 2 || i == 3 || i == 4 || i == 5 || i == 6 || i == 7 || i
            == 8 || i == 9 || i == 10 || i == 11 || i == 12);
    } else if video == vcodec {
        assert(i == 13 || i == 14 || i == 15 || i == 16 || i == 17 || i == 18 || i == 19);
    } else {
        assert(i == 13 || i == 14 || i == 15 || i == 16 || i == 17 || i == 18 || i == 19 || i == 20
            || i == 21 || i == 22 || i == 23 || i == 24 || i == 25 || i == 26 || i == 27 || i
            == 28);
    }
}

/// The command of a video is the one for its path and codecs, run by the given encoder.
pub proof fn law_command_is_of_the_video<P: AsPath>(
    video: &VideoFile<P>,
    ffmpeg: &str,
    dst: &Path,
    vcodec: VideoCodec,
    acodec: AudioCodec,
    crf: u8,
    hwaccel: Hwaccel,
    command: FfmpegCommand,
)
    requires
        call_ensures(
            VideoFile::<P>::transcode_command,
            (video, ffmpeg, dst, vcodec, acodec, crf, hwaccel),
            command,
        ),
    ensures
        command_program(command) == ffmpeg@,
        command_args(command)[8] == CommandArg::File(video.path.parts()),
        command_args(command).last() == CommandArg::File(path_parts(dst)),
        command_args(command) == transcode_args(
            video.path.parts(),
            video.video_codec,
            video.audio_codec,
            path_parts(dst),
            vcodec,
            acodec,
            crf,
            hwaccel,
        ),
{
}

/// To AV1 and AAC, everything can be transcoded. To another video codec or another audio codec,
/// only what has it already can, or what has no known audio.
pub proof fn law_only_av1_and_aac_are_encoded(
    video: VideoCodec,
    audio: Option<AudioCodec>,
    vcodec: VideoCodec,
    acodec: AudioCodec,
)
    ensures
        can_encode(video, audio, VideoCodec::AV1, AudioCodec::Aac),
        can_encode(vcodec, None, vcodec, acodec),
        can_encode(vcodec, Some(acodec), vcodec, acodec),
        vcodec != VideoCodec::AV1 && video != vcodec ==> !can_encode(video, audio, vcodec, acodec),
        acodec != AudioCodec::Aac && audio is Some && audio != Some(acodec) ==> !can_encode(
            video,
            audio,
            vcodec,
            acodec,
        ),
{
}

} // verus!
