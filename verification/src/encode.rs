//! The encoder driver: the command line of an encode, the reading of the
//! encoder's progress, and the decision when its output is ready to be served.
//!
//! The encoder itself runs outside: this module says what to run, and tells
//! from what comes back whether to wait, to serve or to fail.

use crate::cache::{audio_dir, get_audio_path};
use crate::error::{TranscodeError, TranscodeErrorView};
use crate::quality::Quality;
use crate::text::{
    chars_of, contains, contains_text, decimal, decimal_string, find_from, first_occurrence,
    parse_saturated_u64, push_decimal, push_string, push_text, saturated_unsigned, str_eq,
    string_of_range, texts,
};
use rand::distributions::Alphanumeric;
use rand::{thread_rng, Rng};
use vstd::prelude::*;
use vstd::string::*;

verus! {

/// The length of a segment in seconds.
pub const SEGMENT_TIME: u32 = 10;

/// The length of the name of a session directory.
pub const SESSION_ID_LENGTH: usize = 30;

/// The arguments that encode the audio stream `audio` to stereo AAC.
pub open spec fn audio_args(audio: u32) -> Seq<Seq<char>> {
    seq![
        "-map"@,
        "0:a:"@ + decimal(audio as nat),
        "-c:a"@,
        "aac"@,
        "-ac"@,
        "2"@,
        "-b:a"@,
        "128k"@,
    ]
}

/// The arguments that encode the video to a quality. `Original` copies the
/// stream. A target is encoded to H.264, scaled down to its height (never up,
/// the width kept even), within its bitrate budget and a buffer of five times
/// its peak, with a key frame forced at each multiple of the segment time.
pub open spec fn video_args(quality: Quality, segment_time: u32) -> Seq<Seq<char>> {
    if quality == Quality::Original {
        seq!["-map"@, "0:V:0"@, "-c:v"@, "copy"@]
    } else {
        seq![
            "-map"@,
            "0:V:0"@,
            "-c:v"@,
            "libx264"@,
            "-crf"@,
            "21"@,
            "-preset"@,
            "veryfast"@,
            "-vf"@,
            "scale=-2:'min("@ + decimal(quality.spec_height()) + ",ih)'"@,
            "-bufsize"@,
            decimal(quality.spec_max_bitrate() * 5),
            "-b:v"@,
            decimal(quality.spec_average_bitrate()),
            "-maxrate"@,
            decimal(quality.spec_max_bitrate()),
            "-force_key_frames"@,
            "expr:gte(t,n_forced*"@ + decimal(segment_time as nat) + ")"@,
            "-strict"@,
            "-2"@,
            "-segment_time_delta"@,
            "0.1"@,
        ]
    }
}

/// The arguments before the encode-specific ones: progress as `key=value`
/// lines on the standard output, no banner or statistics, the seek to
/// `start_time` before the input, HLS output with segments that appear whole,
/// every segment kept in the playlist, and the segment time.
pub open spec fn input_args(path: Seq<char>, start_time: u32) -> Seq<Seq<char>> {
    seq![
        "-progress"@,
        "pipe:1"@,
        "-nostats"@,
        "-hide_banner"@,
        "-loglevel"@,
        "warning"@,
        "-ss"@,
        decimal(start_time as nat),
        "-i"@,
        path,
        "-f"@,
        "hls"@,
        "-hls_flags"@,
        "temp_file"@,
        "-hls_allow_cache"@,
        "1"@,
        "-hls_list_size"@,
        "0"@,
        "-hls_time"@,
        decimal(SEGMENT_TIME as nat),
    ]
}

/// The arguments after the encode-specific ones: the template of the segment
/// files, and the playlist.
pub open spec fn output_args(out_dir: Seq<char>) -> Seq<Seq<char>> {
    seq!["-hls_segment_filename"@, out_dir + "/segments-%02d.ts"@, out_dir + "/stream.m3u8"@]
}

/// The whole argument vector of an encode.
pub open spec fn command_args(
    path: Seq<char>,
    out_dir: Seq<char>,
    encode_args: Seq<Seq<char>>,
    start_time: u32,
) -> Seq<Seq<char>> {
    input_args(path, start_time) + encode_args + output_args(out_dir)
}

/// An encode to start: the program, its arguments, the directory to create
/// for its output, and the time in the source at which it starts.
#[derive(Debug, PartialEq, Eq)]
pub struct EncoderCommand {
    pub program: String,
    pub args: Vec<String>,
    pub out_dir: String,
    pub start_time: u32,
}

/// The model of an [`EncoderCommand`].
pub struct EncoderCommandView {
    pub program: Seq<char>,
    pub args: Seq<Seq<char>>,
    pub out_dir: Seq<char>,
    pub start_time: u32,
}

impl View for EncoderCommand {
    type V = EncoderCommandView;

    open spec fn view(&self) -> EncoderCommandView {
        EncoderCommandView {
            program: self.program@,
            args: texts(self.args@),
            out_dir: self.out_dir@,
            start_time: self.start_time,
        }
    }
}

/// The encode of the file at `path` into `out_dir`.
pub open spec fn command_of(
    path: Seq<char>,
    out_dir: Seq<char>,
    encode_args: Seq<Seq<char>>,
    start_time: u32,
) -> EncoderCommandView {
    EncoderCommandView {
        program: "ffmpeg"@,
        args: command_args(path, out_dir, encode_args, start_time),
        out_dir,
        start_time,
    }
}

/// The arguments that encode the audio stream `audio_idx`.
pub fn get_transcode_audio_args(audio_idx: u32) -> (args: Vec<String>)
    ensures
        texts(args@) == audio_args(audio_idx),
{
    let mut args: Vec<String> = Vec::new();
    push_text(&mut args, "-map");
    let mut stream = "0:a:".to_owned();
    push_decimal(&mut stream, audio_idx as u64);
    push_string(&mut args, stream);
    push_text(&mut args, "-c:a");
    push_text(&mut args, "aac");
    push_text(&mut args, "-ac");
    push_text(&mut args, "2");
    push_text(&mut args, "-b:a");
    push_text(&mut args, "128k");
    assert(texts(args@) =~= audio_args(audio_idx));
    args
}

/// The arguments that encode the video to `quality`, with a key frame forced
/// every `segment_time` seconds.
pub fn get_transcode_video_quality_args(quality: &Quality, segment_time: u32) -> (args: Vec<String>)
    ensures
        texts(args@) == video_args(*quality, segment_time),
{
    let mut args: Vec<String> = Vec::new();
    push_text(&mut args, "-map");
    push_text(&mut args, "0:V:0");
    push_text(&mut args, "-c:v");
    if *quality == Quality::Original {
        push_text(&mut args, "copy");
        assert(texts(args@) =~= video_args(*quality, segment_time));
        return args;
    }
    push_text(&mut args, "libx264");
    push_text(&mut args, "-crf");
    push_text(&mut args, "21");
    push_text(&mut args, "-preset");
    push_text(&mut args, "veryfast");
    push_text(&mut args, "-vf");
    let mut scale = "scale=-2:'min(".to_owned();
    push_decimal(&mut scale, quality.height() as u64);
    scale.append(",ih)'");
    push_string(&mut args, scale);
    push_text(&mut args, "-bufsize");
    push_string(&mut args, decimal_string(quality.max_bitrate() as u64 * 5));
    push_text(&mut args, "-b:v");
    push_string(&mut args, decimal_string(quality.average_bitrate() as u64));
    push_text(&mut args, "-maxrate");
    push_string(&mut args, decimal_string(quality.max_bitrate() as u64));
    push_text(&mut args, "-force_key_frames");
    let mut frames = "expr:gte(t,n_forced*".to_owned();
    push_decimal(&mut frames, segment_time as u64);
    frames.append(")");
    push_string(&mut args, frames);
    push_text(&mut args, "-strict");
    push_text(&mut args, "-2");
    push_text(&mut args, "-segment_time_delta");
    push_text(&mut args, "0.1");
    assert(texts(args@) =~= video_args(*quality, segment_time));
    args
}

/// The encode of the file at `path` into `out_dir` with the given
/// encode-specific arguments, from `start_time` seconds into the source.
pub fn transcode_command(path: &str, out_dir: String, encode_args: Vec<String>, start_time: u32)
    -> (command: EncoderCommand)
    ensures
        command@ == command_of(path@, out_dir@, texts(encode_args@), start_time),
{
    let mut args: Vec<String> = Vec::new();
    push_text(&mut args, "-progress");
    push_text(&mut args, "pipe:1");
    push_text(&mut args, "-nostats");
    push_text(&mut args, "-hide_banner");
    push_text(&mut args, "-loglevel");
    push_text(&mut args, "warning");
    push_text(&mut args, "-ss");
    push_string(&mut args, decimal_string(start_time as u64));
    push_text(&mut args, "-i");
    push_text(&mut args, path);
    push_text(&mut args, "-f");
    push_text(&mut args, "hls");
    push_text(&mut args, "-hls_flags");
    push_text(&mut args, "temp_file");
    push_text(&mut args, "-hls_allow_cache");
    push_text(&mut args, "1");
    push_text(&mut args, "-hls_list_size");
    push_text(&mut args, "0");
    push_text(&mut args, "-hls_time");
    push_string(&mut args, decimal_string(SEGMENT_TIME as u64));
    assert(texts(args@) =~= input_args(path@, start_time));
    let ghost head = input_args(path@, start_time);
    let ghost middle = texts(encode_args@);
    let mut i: usize = 0;
    assert(head + middle.take(0) =~= head);
    while i < encode_args.len()
        invariant
            i <= encode_args.len(),
            middle == texts(encode_args@),
            texts(args@) == head + middle.take(i as int),
        decreases encode_args.len() - i,
    {
        assert(middle[i as int] == encode_args@[i as int]@);
        assert(head + middle.take(i + 1) =~= (head + middle.take(i as int)).push(middle[i as int]));
        push_text(&mut args, encode_args[i].as_str());
        i += 1;
    }
    assert(middle.take(encode_args.len() as int) == middle);
    push_text(&mut args, "-hls_segment_filename");
    let mut segments = out_dir.clone();
    segments.append("/segments-%02d.ts");
    push_string(&mut args, segments);
    let mut playlist = out_dir.clone();
    playlist.append("/stream.m3u8");
    push_string(&mut args, playlist);
    assert(texts(args@) =~= command_args(path@, out_dir@, middle, start_time));
    EncoderCommand { program: "ffmpeg".to_owned(), args, out_dir, start_time }
}

/// The encode of the audio stream `audio` of the file at `path`: into the
/// directory of the audio job, from the start of the source.
pub fn transcode_audio(path: &String, audio: u32) -> (command: EncoderCommand)
    ensures
        command@ == command_of(path@, audio_dir(path@, audio), audio_args(audio), 0),
{
    transcode_command(
        path.as_str(),
        get_audio_path(path, audio),
        get_transcode_audio_args(audio),
        0,
    )
}

/// Whether a character is an ASCII letter or digit.
pub open spec fn is_alphanumeric(c: char) -> bool {
    ('0' <= c <= '9') || ('a' <= c <= 'z') || ('A' <= c <= 'Z')
}

/// Whether a text can name a session directory: thirty ASCII letters and digits.
pub open spec fn is_session_id(uuid: Seq<char>) -> bool {
    &&& uuid.len() == SESSION_ID_LENGTH
    &&& forall|i: int| 0 <= i < uuid.len() ==> is_alphanumeric(#[trigger] uuid[i])
}

/// `rand::Rng::sample_iter` of `rand::distributions::Alphanumeric` on the
/// generator that `rand::thread_rng` gives, cut after `count` items: `count`
/// bytes, each the code of an ASCII letter or digit. Which ones is left to
/// chance. The generator is seeded by the system on its first use in a thread.
#[verifier::external_body]
fn random_alphanumerics(count: usize) -> (bytes: Vec<u8>)
    ensures
        bytes@.len() == count,
        forall|i: int| 0 <= i < count ==> is_alphanumeric((#[trigger] bytes@[i]) as char),
{
    thread_rng().sample_iter(&Alphanumeric).take(count).collect()
}

/// A fresh name for a session directory, drawn at random.
pub fn new_session_id() -> (uuid: String)
    ensures
        is_session_id(uuid@),
{
    let bytes = random_alphanumerics(SESSION_ID_LENGTH);
    let mut uuid = String::new();
    let mut i: usize = 0;
    while i < bytes.len()
        invariant
            i <= bytes.len(),
            bytes@.len() == SESSION_ID_LENGTH,
            forall|k: int|
                0 <= k < bytes@.len() ==> is_alphanumeric((#[trigger] bytes@[k]) as char),
            uuid@.len() == i,
            forall|k: int| 0 <= k < i ==> is_alphanumeric(#[trigger] uuid@[k]),
        decreases bytes.len() - i,
    {
        uuid.push(bytes[i] as char);
        i += 1;
    }
    uuid
}

/// A video encode to start, with the name of the session directory that it fills.
#[derive(Debug, PartialEq, Eq)]
pub struct VideoLaunch {
    pub uuid: String,
    pub command: EncoderCommand,
}

/// The model of a [`VideoLaunch`].
pub struct VideoLaunchView {
    pub uuid: Seq<char>,
    pub command: EncoderCommandView,
}

impl View for VideoLaunch {
    type V = VideoLaunchView;

    open spec fn view(&self) -> VideoLaunchView {
        VideoLaunchView { uuid: self.uuid@, command: self.command@ }
    }
}

/// The video encode of the file at `path` to `quality` into the session
/// directory `/cache/{uuid}`.
pub open spec fn video_launch_of(path: Seq<char>, quality: Quality, start_time: u32, uuid: Seq<char>)
    -> VideoLaunchView {
    VideoLaunchView {
        uuid,
        command: command_of(
            path,
            "/cache/"@ + uuid,
            video_args(quality, SEGMENT_TIME),
            start_time,
        ),
    }
}

/// The video encode of the file at `path` to `quality` into the session
/// directory named `uuid`.
pub fn video_launch(path: &str, quality: Quality, start_time: u32, uuid: String) -> (launch:
    VideoLaunch)
    ensures
        launch@ == video_launch_of(path@, quality, start_time, uuid@),
{
    let mut out_dir = "/cache/".to_owned();
    out_dir.append(uuid.as_str());
    let command = transcode_command(
        path,
        out_dir,
        get_transcode_video_quality_args(&quality, SEGMENT_TIME),
        start_time,
    );
    VideoLaunch { uuid, command }
}

/// The video encode of the file at `path` to `quality`, into a session
/// directory with a fresh random name.
pub fn transcode_video(path: &str, quality: Quality, start_time: u32) -> (launch: VideoLaunch)
    ensures
        is_session_id(launch@.uuid),
        launch@ == video_launch_of(path@, quality, start_time, launch@.uuid),
{
    video_launch(path, quality, start_time, new_session_id())
}

/// The encoded time that a line of the encoder's progress reports, in whole
/// seconds. A line reports one where it holds a `=` and the text before the
/// first `=` is `out_time_us`; the text after it is a number of microseconds.
/// A text that is no unsigned integer (a negative one, say) counts as zero,
/// and a number that no `u64` holds as the largest `u64`.
pub open spec fn progress_seconds(line: Seq<char>) -> Option<u64> {
    match first_occurrence(line, "="@) {
        Some(i) => if line.take(i) == "out_time_us"@ {
            Some(
                match saturated_unsigned(line.skip(i + 1), u64::MAX as nat) {
                    Some(micros) => (micros / 1_000_000) as u64,
                    None => 0u64,
                },
            )
        } else {
            None
        },
        None => None,
    }
}

/// Reads a line of the encoder's progress.
pub fn parse_progress(line: &str) -> (seconds: Option<u64>)
    ensures
        seconds == progress_seconds(line@),
{
    let v = chars_of(line);
    let sign = chars_of("=");
    proof {
        reveal_strlit("=");
    }
    match find_from(&v, &sign, 0) {
        Some(i) => {
            let key = string_of_range(&v, 0, i);
            assert(v@.subrange(0, i as int) == v@.take(i as int));
            if str_eq(key.as_str(), "out_time_us") {
                let value = string_of_range(&v, i + 1, v.len());
                assert(v@.subrange(i + 1, v.len() as int) == v@.skip(i + 1));
                match parse_saturated_u64(value.as_str()) {
                    Some(micros) => Some(micros / 1_000_000),
                    None => Some(0),
                }
            } else {
                None
            }
        },
        None => None,
    }
}

/// What the encoder lets its driver know.
#[derive(Debug, PartialEq, Eq)]
pub enum EncoderEvent {
    /// A line of its standard output.
    Line(String),
    /// Its standard output has ended and it has exited, with success or not;
    /// `stderr` is all that it wrote to its error stream.
    Exited { success: bool, stderr: String },
}

/// The model of an [`EncoderEvent`].
pub enum EncoderEventView {
    Line(Seq<char>),
    Exited { success: bool, stderr: Seq<char> },
}

impl View for EncoderEvent {
    type V = EncoderEventView;

    open spec fn view(&self) -> EncoderEventView {
        match self {
            EncoderEvent::Line(line) => EncoderEventView::Line(line@),
            EncoderEvent::Exited { success, stderr } => EncoderEventView::Exited {
                success: *success,
                stderr: stderr@,
            },
        }
    }
}

/// What the driver does after an event.
#[derive(Debug)]
pub enum EncoderStatus {
    /// Go on reading.
    Waiting,
    /// The output can be served.
    Ready,
    /// The encode has failed.
    Failed(TranscodeError),
}

/// The model of an [`EncoderStatus`].
pub enum EncoderStatusView {
    Waiting,
    Ready,
    Failed(TranscodeErrorView),
}

impl View for EncoderStatus {
    type V = EncoderStatusView;

    open spec fn view(&self) -> EncoderStatusView {
        match self {
            EncoderStatus::Waiting => EncoderStatusView::Waiting,
            EncoderStatus::Ready => EncoderStatusView::Ready,
            EncoderStatus::Failed(e) => EncoderStatusView::Failed(e@),
        }
    }
}

/// The watch on one encoder: where in the source it started, and the latest
/// encoded time that it reported, both in seconds.
#[derive(PartialEq, Eq, Structural, Clone, Copy, Debug)]
pub struct EncoderWatch {
    pub start_time: u32,
    pub ready_time: u64,
}

/// The encoded time from which the output can be served: one segment and a
/// half past the start.
pub open spec fn ready_from(start_time: u32) -> int {
    start_time + SEGMENT_TIME * 3 / 2
}

/// The watch and the status after an event.
///
/// A progress line that reports a time replaces the latest time, and the
/// output is ready once that time reaches [`ready_from`]; any other line
/// changes nothing. An encoder that has exited with success is ready, however
/// short its output; one that has exited otherwise has failed with what it
/// wrote to its error stream.
pub open spec fn watch_step(watch: EncoderWatch, event: EncoderEventView) -> (
    EncoderWatch,
    EncoderStatusView,
) {
    match event {
        EncoderEventView::Line(line) => match progress_seconds(line) {
            Some(seconds) => (
                EncoderWatch { start_time: watch.start_time, ready_time: seconds },
                if seconds >= ready_from(watch.start_time) {
                    EncoderStatusView::Ready
                } else {
                    EncoderStatusView::Waiting
                },
            ),
            None => (watch, EncoderStatusView::Waiting),
        },
        EncoderEventView::Exited { success, stderr } => (
            watch,
            if success {
                EncoderStatusView::Ready
            } else {
                EncoderStatusView::Failed(TranscodeErrorView::FFmpegError(stderr))
            },
        ),
    }
}

impl EncoderWatch {
    /// The watch on an encoder that starts `start_time` seconds into the
    /// source and has reported nothing yet.
    pub fn new(start_time: u32) -> (watch: EncoderWatch)
        ensures
            watch == (EncoderWatch { start_time, ready_time: 0 }),
    {
        EncoderWatch { start_time, ready_time: 0 }
    }

    /// Takes note of an event and says what to do next.
    pub fn observe(&mut self, event: EncoderEvent) -> (status: EncoderStatus)
        ensures
            (*final(self), status@) == watch_step(*old(self), event@),
    {
        match event {
            EncoderEvent::Line(line) => match parse_progress(line.as_str()) {
                Some(seconds) => {
                    self.ready_time = seconds;
                    if seconds >= self.start_time as u64 + SEGMENT_TIME as u64 * 3 / 2 {
                        EncoderStatus::Ready
                    } else {
                        EncoderStatus::Waiting
                    }
                },
                None => EncoderStatus::Waiting,
            },
            EncoderEvent::Exited { success, stderr } => {
                if success {
                    EncoderStatus::Ready
                } else {
                    EncoderStatus::Failed(TranscodeError::FFmpegError(stderr))
                }
            },
        }
    }
}

/// The error of an audio encode as the caller sees it: where the encoder
/// says that the stream `matches no streams.`, the audio index was wrong.
pub open spec fn audio_error(error: TranscodeErrorView) -> TranscodeErrorView {
    match error {
        TranscodeErrorView::FFmpegError(message) => if contains_text(
            message,
            "matches no streams."@,
        ) {
            TranscodeErrorView::ArgumentError("Invalid audio index"@)
        } else {
            error
        },
        _ => error,
    }
}

/// Turns the error of an audio encode into the one that the caller sees.
pub fn transcode_audio_error(error: TranscodeError) -> (r: TranscodeError)
    ensures
        r@ == audio_error(error@),
{
    match error {
        TranscodeError::FFmpegError(message) => {
            if contains(message.as_str(), "matches no streams.") {
                TranscodeError::ArgumentError("Invalid audio index".to_owned())
            } else {
                TranscodeError::FFmpegError(message)
            }
        },
        other => other,
    }
}

} // verus!
