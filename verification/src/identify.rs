//! Identification: from the inspector's report on a media file to its
//! [`MediaInfo`], with the content key that names its metadata directory, and
//! the command that extracts its subtitles and attachments.
//!
//! Times are held in milliseconds: the length of the media and the bounds of a
//! chapter are whole numbers here.

use crate::cache::{hash_text_pair, text_pair_key};
use crate::metadata::{get_metadata_dir, metadata_dir};
use crate::model::{view_of, views};
use crate::probe::{
    first_of_kind, number_of, property, read_report, rendered_of, report_tracks, select_kind,
    text_is, text_of, tracks_of_kind, Property, PropertyView, Track, TrackView,
};
use crate::quality::Quality;
use crate::text::{
    all_digits, chars_of, decimal, digit_value, digits_only, find_from, first_occurrence, is_digit, lower_hex,
    lowercase, number_of_digits, parse_digits, parse_u32, parsed_u32, push_decimal,
    push_lower_hex, push_string, push_text, split, split_text, str_eq, texts, to_lowercase,
};
use vstd::prelude::*;
use vstd::string::*;
use vstd::utf8::encode_utf8;

verus! {

/// Why a file could not be identified.
#[derive(PartialEq, Eq, Structural, Clone, Copy, Debug)]
pub enum IdentifyError {
    /// The inspector did not end with success.
    ProbeFailed,
    /// The report is no JSON document, has no general track, or lacks or
    /// garbles an entry that the identification needs.
    InvalidReport,
    /// The report has no video track.
    NoVideo,
    /// The extraction of the subtitles and attachments did not end with success.
    ExtractionFailed,
}

impl IdentifyError {
    /// What the error says.
    pub open spec fn message(self) -> Seq<char> {
        match self {
            IdentifyError::ProbeFailed => "The media inspector failed."@,
            IdentifyError::InvalidReport => "The report of the media inspector could not be read."@,
            IdentifyError::NoVideo => "File without video found. This is not supported."@,
            IdentifyError::ExtractionFailed => "The extraction of subtitles and attachments failed."@,
        }
    }

    /// What the error says.
    pub fn to_string(&self) -> (text: String)
        ensures
            text@ == self.message(),
    {
        match self {
            IdentifyError::ProbeFailed => "The media inspector failed.".to_owned(),
            IdentifyError::InvalidReport => "The report of the media inspector could not be read.".to_owned(),
            IdentifyError::NoVideo => "File without video found. This is not supported.".to_owned(),
            IdentifyError::ExtractionFailed => "The extraction of subtitles and attachments failed.".to_owned(),
        }
    }
}

/// The video track of a file.
#[derive(Debug, PartialEq, Eq)]
pub struct Video {
    /// The codec of the stream.
    pub codec: String,
    /// The language of the stream.
    pub language: Option<String>,
    /// The rung of the ladder chosen for the height of the stream.
    pub quality: Quality,
    /// The width of the stream.
    pub width: u32,
    /// The height of the stream.
    pub height: u32,
    /// The average bitrate of the stream in bytes per second.
    pub bitrate: u32,
}

/// An audio track of a file.
#[derive(Debug, PartialEq, Eq)]
pub struct Audio {
    /// The zero-based index of the track among the audio tracks.
    pub index: u32,
    pub title: Option<String>,
    pub language: Option<String>,
    pub codec: String,
    /// Whether the track is tagged as the default one of its kind.
    pub is_default: bool,
    /// Whether the track is tagged as forced.
    pub is_forced: bool,
}

/// A subtitle track of a file.
#[derive(Debug, PartialEq, Eq)]
pub struct Subtitle {
    /// The zero-based index of the track among the subtitle tracks.
    pub index: u32,
    pub title: Option<String>,
    pub language: Option<String>,
    /// The codec, in lower case, `utf-8` renamed to `subrip`.
    pub codec: String,
    /// The file extension of the codec, where it has one.
    pub extension: Option<String>,
    /// Whether the track is tagged as the default one of its kind.
    pub is_default: bool,
    /// Whether the track is tagged as forced.
    pub is_forced: bool,
    /// Where the subtitle can be downloaded, where the codec has an extension.
    pub link: Option<String>,
}

/// A chapter of a file.
#[derive(Debug, PartialEq, Eq)]
pub struct Chapter {
    /// The start of the chapter, in milliseconds from the start of the media.
    pub start_time: u64,
    /// The end of the chapter, in milliseconds from the start of the media.
    pub end_time: u64,
    /// The name of the chapter.
    pub name: String,
}

/// What is known of a media file once identified.
#[derive(Debug, PartialEq, Eq)]
pub struct MediaInfo {
    /// The content key of the file.
    pub sha: String,
    /// The path of the file.
    pub path: String,
    /// The length of the media in milliseconds.
    pub length: u64,
    /// The container format of the file.
    pub container: String,
    pub video: Video,
    pub audios: Vec<Audio>,
    pub subtitles: Vec<Subtitle>,
    /// The download paths of the attached fonts.
    pub fonts: Vec<String>,
    pub chapters: Vec<Chapter>,
}

/// The model of a [`Video`].
pub struct VideoView {
    pub codec: Seq<char>,
    pub language: Option<Seq<char>>,
    pub quality: Quality,
    pub width: u32,
    pub height: u32,
    pub bitrate: u32,
}

/// The model of an [`Audio`].
pub struct AudioView {
    pub index: u32,
    pub title: Option<Seq<char>>,
    pub language: Option<Seq<char>>,
    pub codec: Seq<char>,
    pub is_default: bool,
    pub is_forced: bool,
}

/// The model of a [`Subtitle`].
pub struct SubtitleView {
    pub index: u32,
    pub title: Option<Seq<char>>,
    pub language: Option<Seq<char>>,
    pub codec: Seq<char>,
    pub extension: Option<Seq<char>>,
    pub is_default: bool,
    pub is_forced: bool,
    pub link: Option<Seq<char>>,
}

/// The model of a [`Chapter`].
pub struct ChapterView {
    pub start_time: u64,
    pub end_time: u64,
    pub name: Seq<char>,
}

/// The model of a [`MediaInfo`].
pub struct MediaInfoView {
    pub sha: Seq<char>,
    pub path: Seq<char>,
    pub length: u64,
    pub container: Seq<char>,
    pub video: VideoView,
    pub audios: Seq<AudioView>,
    pub subtitles: Seq<SubtitleView>,
    pub fonts: Seq<Seq<char>>,
    pub chapters: Seq<ChapterView>,
}

impl View for Video {
    type V = VideoView;

    open spec fn view(&self) -> VideoView {
        VideoView {
            codec: self.codec@,
            language: view_of(self.language),
            quality: self.quality,
            width: self.width,
            height: self.height,
            bitrate: self.bitrate,
        }
    }
}

impl View for Audio {
    type V = AudioView;

    open spec fn view(&self) -> AudioView {
        AudioView {
            index: self.index,
            title: view_of(self.title),
            language: view_of(self.language),
            codec: self.codec@,
            is_default: self.is_default,
            is_forced: self.is_forced,
        }
    }
}

impl View for Subtitle {
    type V = SubtitleView;

    open spec fn view(&self) -> SubtitleView {
        SubtitleView {
            index: self.index,
            title: view_of(self.title),
            language: view_of(self.language),
            codec: self.codec@,
            extension: view_of(self.extension),
            is_default: self.is_default,
            is_forced: self.is_forced,
            link: view_of(self.link),
        }
    }
}

impl View for Chapter {
    type V = ChapterView;

    open spec fn view(&self) -> ChapterView {
        ChapterView { start_time: self.start_time, end_time: self.end_time, name: self.name@ }
    }
}

impl View for MediaInfo {
    type V = MediaInfoView;

    open spec fn view(&self) -> MediaInfoView {
        MediaInfoView {
            sha: self.sha@,
            path: self.path@,
            length: self.length,
            container: self.container@,
            video: self.video@,
            audios: views(self.audios@),
            subtitles: views(self.subtitles@),
            fonts: texts(self.fonts@),
            chapters: views(self.chapters@),
        }
    }
}

/// The content key of a file: the `UniqueID` of its general track where that
/// is a text of five bytes or more, else the hash of the path and of the
/// file's modification date as the report prints it, in lower-case hexadecimal.
pub open spec fn content_key(path: Seq<char>, general: TrackView) -> Seq<char> {
    match text_of(general.properties, "UniqueID"@) {
        Some(id) if encode_utf8(id).len() >= 5 => id,
        _ => lower_hex(
            text_pair_key(path, rendered_of(general.properties, "File_Modified_Date"@)) as nat,
        ),
    }
}

/// The zero-based index that a one-based ordinal gives; zero where the report
/// gives no ordinal. An ordinal of zero gives none.
pub open spec fn ordinal_index(ordinal: Option<u32>) -> Option<u32> {
    match ordinal {
        None => Some(0u32),
        Some(n) => if n == 0 {
            None
        } else {
            Some((n - 1) as u32)
        },
    }
}

/// The codec of a subtitle, from its name in lower case: `utf-8` is `subrip`.
pub open spec fn subtitle_codec(lowered: Seq<char>) -> Seq<char> {
    if lowered == "utf-8"@ {
        "subrip"@
    } else {
        lowered
    }
}

/// The file extension of a subtitle codec: three codecs have one.
pub open spec fn subtitle_extension(codec: Seq<char>) -> Option<Seq<char>> {
    if codec == "subrip"@ {
        Some("srt"@)
    } else if codec == "ass"@ {
        Some("ass"@)
    } else if codec == "vtt"@ {
        Some("vtt"@)
    } else {
        None
    }
}

/// Where a subtitle can be downloaded.
pub open spec fn subtitle_link(sha: Seq<char>, index: u32, extension: Seq<char>) -> Seq<char> {
    "/video/"@ + sha + "/subtitle/"@ + decimal(index as nat) + "."@ + extension
}

/// The subtitle that its entries make, the codec name given in lower case.
pub open spec fn new_subtitle(
    sha: Seq<char>,
    index: u32,
    title: Option<Seq<char>>,
    language: Option<Seq<char>>,
    lowered: Seq<char>,
    is_default: bool,
    is_forced: bool,
) -> SubtitleView {
    let codec = subtitle_codec(lowered);
    SubtitleView {
        index,
        title,
        language,
        codec,
        extension: subtitle_extension(codec),
        is_default,
        is_forced,
        link: match subtitle_extension(codec) {
            Some(extension) => Some(subtitle_link(sha, index, extension)),
            None => None,
        },
    }
}

/// The subtitle of a text track: it needs a `Format`, and an `@typeorder`
/// that is not zero where it has one.
pub open spec fn subtitle_of(sha: Seq<char>, track: TrackView) -> Option<SubtitleView> {
    match (
        ordinal_index(number_of(track.properties, "@typeorder"@)),
        text_of(track.properties, "Format"@),
    ) {
        (Some(index), Some(format)) => Some(
            new_subtitle(
                sha,
                index,
                text_of(track.properties, "Title"@),
                text_of(track.properties, "Language"@),
                lowercase(format),
                text_is(track.properties, "Default"@, "Yes"@),
                text_is(track.properties, "Forced"@, "Yes"@),
            ),
        ),
        _ => None,
    }
}

/// The audio of an audio track: it needs a `Format`, and an `@typeorder`
/// that is not zero where it has one.
pub open spec fn audio_of(track: TrackView) -> Option<AudioView> {
    match (
        ordinal_index(number_of(track.properties, "@typeorder"@)),
        text_of(track.properties, "Format"@),
    ) {
        (Some(index), Some(format)) => Some(
            AudioView {
                index,
                title: text_of(track.properties, "Title"@),
                language: text_of(track.properties, "Language"@),
                codec: format,
                is_default: text_is(track.properties, "Default"@, "Yes"@),
                is_forced: text_is(track.properties, "Forced"@, "Yes"@),
            },
        ),
        _ => None,
    }
}

/// The bitrate of the video: its own `BitRate`, else the `OverallBitRate` of
/// the general track.
pub open spec fn video_bitrate(general: TrackView, track: TrackView) -> Option<u32> {
    match number_of(track.properties, "BitRate"@) {
        Some(rate) => Some(rate),
        None => number_of(general.properties, "OverallBitRate"@),
    }
}

/// The video of a video track: it needs a `Format`, a `Height`, a `Width` and
/// a bitrate.
pub open spec fn video_of(general: TrackView, track: TrackView) -> Option<VideoView> {
    match (
        text_of(track.properties, "Format"@),
        number_of(track.properties, "Height"@),
        number_of(track.properties, "Width"@),
        video_bitrate(general, track),
    ) {
        (Some(codec), Some(height), Some(width), Some(bitrate)) => Some(
            VideoView {
                codec,
                language: text_of(track.properties, "Language"@),
                quality: Quality::spec_from_height(height as nat),
                width,
                height,
                bitrate,
            },
        ),
        _ => None,
    }
}

fn owned(text: Option<&String>) -> (r: Option<String>)
    ensures
        view_of(r) == view_of(text),
{
    match text {
        Some(t) => Some(t.clone()),
        None => None,
    }
}

fn index_of_ordinal(ordinal: Option<u32>) -> (r: Option<u32>)
    ensures
        r == ordinal_index(ordinal),
{
    match ordinal {
        None => Some(0),
        Some(n) => if n == 0 {
            None
        } else {
            Some(n - 1)
        },
    }
}

/// The content key of the file at `path` whose general track is `general`.
pub fn get_content_key(path: &str, general: &Track) -> (sha: String)
    ensures
        sha@ == content_key(path@, general@),
{
    match general.text("UniqueID") {
        Some(id) => {
            if id.as_str().as_bytes().len() >= 5 {
                return id.clone();
            }
        },
        None => {},
    }
    let modified = general.rendered("File_Modified_Date");
    let key = hash_text_pair(path, modified.as_str());
    let mut sha = String::new();
    push_lower_hex(&mut sha, key);
    assert(Seq::<char>::empty() + lower_hex(key as nat) == lower_hex(key as nat));
    sha
}

impl Subtitle {
    /// The subtitle that its entries make. `lowered` is the name of the codec
    /// in lower case; `utf-8` is taken for `subrip`, and a codec with a known
    /// extension gets a download link under the content key `sha`.
    pub fn new(
        sha: &str,
        index: u32,
        title: Option<String>,
        language: Option<String>,
        lowered: String,
        is_default: bool,
        is_forced: bool,
    ) -> (subtitle: Subtitle)
        ensures
            subtitle@ == new_subtitle(
                sha@,
                index,
                view_of(title),
                view_of(language),
                lowered@,
                is_default,
                is_forced,
            ),
    {
        let codec = if str_eq(lowered.as_str(), "utf-8") {
            "subrip".to_owned()
        } else {
            lowered
        };
        let extension = if str_eq(codec.as_str(), "subrip") {
            Some("srt".to_owned())
        } else if str_eq(codec.as_str(), "ass") {
            Some("ass".to_owned())
        } else if str_eq(codec.as_str(), "vtt") {
            Some("vtt".to_owned())
        } else {
            None
        };
        let link = match &extension {
            Some(ext) => {
                let mut link = "/video/".to_owned();
                link.append(sha);
                link.append("/subtitle/");
                push_decimal(&mut link, index as u64);
                link.append(".");
                link.append(ext.as_str());
                Some(link)
            },
            None => None,
        };
        Subtitle { index, title, language, codec, extension, is_default, is_forced, link }
    }
}

fn read_subtitle(sha: &str, track: &Track) -> (r: Option<Subtitle>)
    ensures
        view_of(r) == subtitle_of(sha@, track@),
{
    let index = match index_of_ordinal(track.number("@typeorder")) {
        Some(index) => index,
        None => {
            return None;
        },
    };
    let format = match track.text("Format") {
        Some(format) => format,
        None => {
            return None;
        },
    };
    Some(
        Subtitle::new(
            sha,
            index,
            owned(track.text("Title")),
            owned(track.text("Language")),
            to_lowercase(format.as_str()),
            track.text_equals("Default", "Yes"),
            track.text_equals("Forced", "Yes"),
        ),
    )
}

fn read_audio(track: &Track) -> (r: Option<Audio>)
    ensures
        view_of(r) == audio_of(track@),
{
    let index = match index_of_ordinal(track.number("@typeorder")) {
        Some(index) => index,
        None => {
            return None;
        },
    };
    let format = match track.text("Format") {
        Some(format) => format,
        None => {
            return None;
        },
    };
    Some(
        Audio {
            index,
            title: owned(track.text("Title")),
            language: owned(track.text("Language")),
            codec: format.clone(),
            is_default: track.text_equals("Default", "Yes"),
            is_forced: track.text_equals("Forced", "Yes"),
        },
    )
}

fn read_video(general: &Track, track: &Track) -> (r: Option<Video>)
    ensures
        view_of(r) == video_of(general@, track@),
{
    let codec = match track.text("Format") {
        Some(codec) => codec,
        None => {
            return None;
        },
    };
    let height = match track.number("Height") {
        Some(height) => height,
        None => {
            return None;
        },
    };
    let width = match track.number("Width") {
        Some(width) => width,
        None => {
            return None;
        },
    };
    let bitrate = match track.number("BitRate") {
        Some(rate) => rate,
        None => match general.number("OverallBitRate") {
            Some(rate) => rate,
            None => {
                return None;
            },
        },
    };
    Some(
        Video {
            codec: codec.clone(),
            language: owned(track.text("Language")),
            quality: Quality::from_height(height),
            width,
            height,
            bitrate,
        },
    )
}

/// The most seconds that a length is read as.
pub const MAX_SECONDS: u64 = 0xffff_ffff_ffff;

/// The value of the digit of `s` at `i`; zero past the end.
pub open spec fn digit_at(s: Seq<char>, i: int) -> nat {
    if 0 <= i < s.len() {
        digit_value(s[i])
    } else {
        0
    }
}

/// The milliseconds that the decimals of a number of seconds stand for: the
/// first three count, the rest is cut off.
pub open spec fn fraction_millis(decimals: Seq<char>) -> nat {
    digit_at(decimals, 0) * 100 + digit_at(decimals, 1) * 10 + digit_at(decimals, 2)
}

/// The milliseconds in a number of seconds written in decimal: digits, then
/// optionally a point and more digits. At most [`MAX_SECONDS`] seconds.
pub open spec fn seconds_millis(text: Seq<char>) -> Option<u64> {
    match first_occurrence(text, "."@) {
        None => match number_of_digits(text, MAX_SECONDS as nat) {
            Some(n) => Some((n * 1000) as u64),
            None => None,
        },
        Some(i) => match number_of_digits(text.take(i), MAX_SECONDS as nat) {
            Some(n) => if all_digits(text.skip(i + 1)) {
                Some((n * 1000 + fraction_millis(text.skip(i + 1))) as u64)
            } else {
                None
            },
            None => None,
        },
    }
}

/// The milliseconds that a chapter key stands for. The key is cut at each `_`;
/// what stands before the first is dropped, and the next four pieces are the
/// hours, minutes, seconds and milliseconds.
pub open spec fn clock_millis(key: Seq<char>) -> Option<u64> {
    let parts = split_text(key, "_"@);
    if parts.len() >= 5 {
        match (
            parsed_u32(parts[1]),
            parsed_u32(parts[2]),
            parsed_u32(parts[3]),
            parsed_u32(parts[4]),
        ) {
            (Some(h), Some(m), Some(s), Some(ms)) => Some(
                (((h * 60 + m) * 60 + s) * 1000 + ms) as u64,
            ),
            _ => None,
        }
    } else {
        None
    }
}

/// The chapter that runs from the entry at `i` to the next one: it starts at
/// the first key, ends at the second and is named by the first entry's text.
pub open spec fn chapter_at(entries: Seq<PropertyView>, i: int) -> Option<ChapterView> {
    match (clock_millis(entries[i].key), clock_millis(entries[i + 1].key), entries[i].text) {
        (Some(start_time), Some(end_time), Some(name)) => Some(
            ChapterView { start_time, end_time, name },
        ),
        _ => None,
    }
}

/// How many chapters a list of entries makes: one less than it has entries.
pub open spec fn chapter_count(entries: Seq<PropertyView>) -> nat {
    if entries.len() == 0 {
        0
    } else {
        (entries.len() - 1) as nat
    }
}

/// The chapters that the entries of a menu make, where each of them can be read.
pub open spec fn chapters_in(entries: Seq<PropertyView>) -> Option<Seq<ChapterView>> {
    if forall|i: int| 0 <= i < chapter_count(entries) ==> (#[trigger] chapter_at(entries, i)) is Some {
        Some(Seq::new(chapter_count(entries), |i: int| chapter_at(entries, i)->0))
    } else {
        None
    }
}

/// The chapters of a report: those of its first menu track, none without one.
pub open spec fn chapters_of(tracks: Seq<TrackView>) -> Option<Seq<ChapterView>> {
    match first_of_kind(tracks, "Menu"@) {
        Some(menu) => chapters_in(menu.extra),
        None => Some(Seq::empty()),
    }
}

/// The audios of a report, in order, where each audio track can be read.
pub open spec fn audios_of(tracks: Seq<TrackView>) -> Option<Seq<AudioView>> {
    let list = tracks_of_kind(tracks, "Audio"@);
    if forall|i: int| 0 <= i < list.len() ==> audio_of(#[trigger] list[i]) is Some {
        Some(Seq::new(list.len(), |i: int| audio_of(list[i])->0))
    } else {
        None
    }
}

/// The subtitles of a report, in order, where each text track can be read.
pub open spec fn subtitles_of(sha: Seq<char>, tracks: Seq<TrackView>) -> Option<
    Seq<SubtitleView>,
> {
    let list = tracks_of_kind(tracks, "Text"@);
    if forall|i: int| 0 <= i < list.len() ==> subtitle_of(sha, #[trigger] list[i]) is Some {
        Some(Seq::new(list.len(), |i: int| subtitle_of(sha, list[i])->0))
    } else {
        None
    }
}

/// Where an attached font can be downloaded.
pub open spec fn font_link(sha: Seq<char>, name: Seq<char>) -> Seq<char> {
    "/video/"@ + sha + "/attachment/"@ + name
}

/// The fonts of a file: one for each name in the `Attachments` of the general
/// track's `extra`, which lists them with ` / ` between.
pub open spec fn fonts_of(sha: Seq<char>, general: TrackView) -> Seq<Seq<char>> {
    match text_of(general.extra, "Attachments"@) {
        Some(list) => Seq::new(
            split_text(list, " / "@).len(),
            |i: int| font_link(sha, split_text(list, " / "@)[i]),
        ),
        None => Seq::empty(),
    }
}

/// The length of the media: the `Duration` of the general track.
pub open spec fn media_length(general: TrackView) -> Option<u64> {
    match text_of(general.properties, "Duration"@) {
        Some(text) => seconds_millis(text),
        None => None,
    }
}

/// What a report identifies, for the file at `path`.
///
/// A report without a general track is invalid; one with a general track and
/// without a video track has no video; the first track of each kind counts.
/// With both, every entry that is read has to be there and well-formed.
pub open spec fn identified(path: Seq<char>, tracks: Seq<TrackView>) -> Result<
    MediaInfoView,
    IdentifyError,
> {
    match (first_of_kind(tracks, "General"@), first_of_kind(tracks, "Video"@)) {
        (None, _) => Err(IdentifyError::InvalidReport),
        (Some(_), None) => Err(IdentifyError::NoVideo),
        (Some(general), Some(track)) => {
            let sha = content_key(path, general);
            match (
                media_length(general),
                text_of(general.properties, "Format"@),
                video_of(general, track),
                audios_of(tracks),
                subtitles_of(sha, tracks),
                chapters_of(tracks),
            ) {
                (
                    Some(length),
                    Some(container),
                    Some(video),
                    Some(audios),
                    Some(subtitles),
                    Some(chapters),
                ) => Ok(
                    MediaInfoView {
                        sha,
                        path,
                        length,
                        container,
                        video,
                        audios,
                        subtitles,
                        fonts: fonts_of(sha, general),
                        chapters,
                    },
                ),
                _ => Err(IdentifyError::InvalidReport),
            }
        },
    }
}

/// What the inspector's run identifies: nothing unless it ended with success
/// and its output is a JSON document; then what the tracks of the document do.
pub open spec fn identified_report(path: Seq<char>, succeeded: bool, report: Seq<char>) -> Result<
    MediaInfoView,
    IdentifyError,
> {
    if !succeeded {
        Err(IdentifyError::ProbeFailed)
    } else {
        match report_tracks(report) {
            Some(tracks) => identified(path, tracks),
            None => Err(IdentifyError::InvalidReport),
        }
    }
}

fn digit_number(c: char) -> (d: u64)
    requires
        is_digit(c),
    ensures
        d == digit_value(c),
{
    (c as u32 - '0' as u32) as u64
}

fn digit_number_at(v: &Vec<char>, i: usize, from: usize) -> (d: u64)
    requires
        from <= v.len(),
        all_digits(v@.skip(from as int)),
        i <= 2,
    ensures
        d == digit_at(v@.skip(from as int), i as int),
        d <= 9,
{
    if i < v.len() - from {
        assert(v@.skip(from as int)[i as int] == v@[from + i]);
        digit_number(v[from + i])
    } else {
        0
    }
}

/// Reads a number of seconds written in decimal, as milliseconds.
pub fn parse_seconds(text: &str) -> (r: Option<u64>)
    ensures
        r == seconds_millis(text@),
{
    let v = chars_of(text);
    let point = chars_of(".");
    proof {
        reveal_strlit(".");
    }
    match find_from(&v, &point, 0) {
        None => {
            assert(v@.subrange(0, v.len() as int) == v@);
            match parse_digits(&v, 0, v.len(), MAX_SECONDS) {
                Some(n) => Some(n * 1000),
                None => None,
            }
        },
        Some(i) => {
            assert(v@.subrange(0, i as int) == v@.take(i as int));
            match parse_digits(&v, 0, i, MAX_SECONDS) {
                Some(n) => {
                    let from: usize = i + 1;
                    if !digits_only(&v, from) {
                        return None;
                    }
                    let tenths = digit_number_at(&v, 0, from);
                    let hundredths = digit_number_at(&v, 1, from);
                    let thousandths = digit_number_at(&v, 2, from);
                    Some(n * 1000 + tenths * 100 + hundredths * 10 + thousandths)
                },
                None => None,
            }
        },
    }
}

/// Reads a chapter key as milliseconds.
pub fn parse_clock(key: &str) -> (r: Option<u64>)
    ensures
        r == clock_millis(key@),
{
    proof {
        reveal_strlit("_");
    }
    let parts = split(key, "_");
    if parts.len() < 5 {
        return None;
    }
    assert(texts(parts@)[1] == parts@[1]@);
    assert(texts(parts@)[2] == parts@[2]@);
    assert(texts(parts@)[3] == parts@[3]@);
    assert(texts(parts@)[4] == parts@[4]@);
    let h = parse_u32(parts[1].as_str());
    let m = parse_u32(parts[2].as_str());
    let s = parse_u32(parts[3].as_str());
    let ms = parse_u32(parts[4].as_str());
    match (h, m, s, ms) {
        (Some(h), Some(m), Some(s), Some(ms)) => Some(
            ((h as u64 * 60 + m as u64) * 60 + s as u64) * 1000 + ms as u64,
        ),
        _ => None,
    }
}

fn read_chapter(entries: &Vec<Property>, i: usize) -> (r: Option<Chapter>)
    requires
        i + 1 < entries.len(),
    ensures
        view_of(r) == chapter_at(views(entries@), i as int),
{
    let ghost all = views(entries@);
    assert(all[i as int] == entries@[i as int]@);
    assert(all[i + 1] == entries@[i + 1]@);
    let start_time = match parse_clock(entries[i].key.as_str()) {
        Some(t) => t,
        None => {
            return None;
        },
    };
    let end_time = match parse_clock(entries[i + 1].key.as_str()) {
        Some(t) => t,
        None => {
            return None;
        },
    };
    match &entries[i].text {
        Some(name) => Some(Chapter { start_time, end_time, name: name.clone() }),
        None => None,
    }
}

fn read_chapters(entries: &Vec<Property>) -> (r: Option<Vec<Chapter>>)
    ensures
        r is Some <==> chapters_in(views(entries@)) is Some,
        r matches Some(list) ==> chapters_in(views(entries@)) == Some(
            views(list@),
        ),
{
    let ghost all = views(entries@);
    let mut list: Vec<Chapter> = Vec::new();
    if entries.len() == 0 {
        assert(views(list@) =~= Seq::new(chapter_count(all), |i: int| chapter_at(all, i)->0));
        return Some(list);
    }
    let count: usize = entries.len() - 1;
    let mut i: usize = 0;
    while i < count
        invariant
            i <= count,
            count == entries.len() - 1,
            count == chapter_count(all),
            all == views(entries@),
            list@.len() == i,
            forall|k: int| 0 <= k < i ==> (#[trigger] chapter_at(all, k)) is Some,
            forall|k: int| 0 <= k < i ==> (#[trigger] list@[k])@ == chapter_at(all, k)->0,
        decreases count - i,
    {
        match read_chapter(entries, i) {
            Some(chapter) => {
                list.push(chapter);
            },
            None => {
                assert(chapter_at(all, i as int) is None);
                return None;
            },
        }
        i += 1;
    }
    assert(views(list@) =~= Seq::new(chapter_count(all), |i: int| chapter_at(all, i)->0));
    Some(list)
}

fn read_audios(tracks: &Vec<Track>) -> (r: Option<Vec<Audio>>)
    ensures
        r is Some <==> audios_of(views(tracks@)) is Some,
        r matches Some(list) ==> audios_of(views(tracks@)) == Some(views(list@)),
{
    let found = select_kind(tracks, "Audio");
    let ghost all = tracks_of_kind(views(tracks@), "Audio"@);
    let mut list: Vec<Audio> = Vec::new();
    let mut i: usize = 0;
    while i < found.len()
        invariant
            i <= found.len(),
            views(found@) == all,
            all == tracks_of_kind(views(tracks@), "Audio"@),
            list@.len() == i,
            forall|k: int| 0 <= k < i ==> audio_of(#[trigger] all[k]) is Some,
            forall|k: int| 0 <= k < i ==> (#[trigger] list@[k])@ == audio_of(all[k])->0,
        decreases found.len() - i,
    {
        assert(views(found@)[i as int] == found@[i as int]@);
        match read_audio(found[i]) {
            Some(audio) => {
                list.push(audio);
            },
            None => {
                assert(audio_of(all[i as int]) is None);
                return None;
            },
        }
        i += 1;
    }
    assert(views(list@) =~= Seq::new(all.len(), |i: int| audio_of(all[i])->0));
    Some(list)
}

fn read_subtitles(sha: &str, tracks: &Vec<Track>) -> (r: Option<Vec<Subtitle>>)
    ensures
        r is Some <==> subtitles_of(sha@, views(tracks@)) is Some,
        r matches Some(list) ==> subtitles_of(sha@, views(tracks@)) == Some(views(list@)),
{
    let found = select_kind(tracks, "Text");
    let ghost all = tracks_of_kind(views(tracks@), "Text"@);
    let mut list: Vec<Subtitle> = Vec::new();
    let mut i: usize = 0;
    while i < found.len()
        invariant
            i <= found.len(),
            views(found@) == all,
            all == tracks_of_kind(views(tracks@), "Text"@),
            list@.len() == i,
            forall|k: int| 0 <= k < i ==> subtitle_of(sha@, #[trigger] all[k]) is Some,
            forall|k: int| 0 <= k < i ==> (#[trigger] list@[k])@ == subtitle_of(sha@, all[k])->0,
        decreases found.len() - i,
    {
        assert(views(found@)[i as int] == found@[i as int]@);
        match read_subtitle(sha, found[i]) {
            Some(subtitle) => {
                list.push(subtitle);
            },
            None => {
                assert(subtitle_of(sha@, all[i as int]) is None);
                return None;
            },
        }
        i += 1;
    }
    assert(views(list@) =~= Seq::new(all.len(), |i: int| subtitle_of(sha@, all[i])->0));
    Some(list)
}

fn read_fonts(sha: &str, general: &Track) -> (fonts: Vec<String>)
    ensures
        texts(fonts@) == fonts_of(sha@, general@),
{
    let mut fonts: Vec<String> = Vec::new();
    let list = match property(&general.extra, "Attachments") {
        Some(p) => match &p.text {
            Some(list) => list,
            None => {
                assert(texts(fonts@) =~= Seq::<Seq<char>>::empty());
                return fonts;
            },
        },
        None => {
            assert(texts(fonts@) =~= Seq::<Seq<char>>::empty());
            return fonts;
        },
    };
    proof {
        reveal_strlit(" / ");
    }
    let names = split(list.as_str(), " / ");
    let ghost parts = split_text(list@, " / "@);
    let mut i: usize = 0;
    assert(texts(fonts@) =~= Seq::<Seq<char>>::empty());
    while i < names.len()
        invariant
            i <= names.len(),
            texts(names@) == parts,
            texts(fonts@).len() == i,
            forall|k: int| 0 <= k < i ==> #[trigger] texts(fonts@)[k] == font_link(sha@, parts[k]),
        decreases names.len() - i,
    {
        assert(texts(names@)[i as int] == names@[i as int]@);
        let mut link = "/video/".to_owned();
        link.append(sha);
        link.append("/attachment/");
        link.append(names[i].as_str());
        push_string(&mut fonts, link);
        i += 1;
    }
    assert(texts(fonts@) =~= fonts_of(sha@, general@));
    fonts
}

/// Identifies the file at `path` from the tracks of the inspector's report.
pub fn identify_tracks(path: String, tracks: &Vec<Track>) -> (r: Result<MediaInfo, IdentifyError>)
    ensures
        match r {
            Ok(info) => identified(path@, views(tracks@)) == Ok::<
                MediaInfoView,
                IdentifyError,
            >(info@),
            Err(e) => identified(path@, views(tracks@)) == Err::<
                MediaInfoView,
                IdentifyError,
            >(e),
        },
{
    let generals = select_kind(tracks, "General");
    if generals.len() == 0 {
        return Err(IdentifyError::InvalidReport);
    }
    let general = generals[0];
    assert(views(generals@)[0] == generals@[0]@);
    let videos = select_kind(tracks, "Video");
    if videos.len() == 0 {
        return Err(IdentifyError::NoVideo);
    }
    let track = videos[0];
    assert(views(videos@)[0] == videos@[0]@);
    let sha = get_content_key(path.as_str(), general);
    let length = match general.text("Duration") {
        Some(text) => parse_seconds(text.as_str()),
        None => None,
    };
    let length = match length {
        Some(length) => length,
        None => {
            return Err(IdentifyError::InvalidReport);
        },
    };
    let container = match general.text("Format") {
        Some(container) => container.clone(),
        None => {
            return Err(IdentifyError::InvalidReport);
        },
    };
    let video = match read_video(general, track) {
        Some(video) => video,
        None => {
            return Err(IdentifyError::InvalidReport);
        },
    };
    let audios = match read_audios(tracks) {
        Some(audios) => audios,
        None => {
            return Err(IdentifyError::InvalidReport);
        },
    };
    let subtitles = match read_subtitles(sha.as_str(), tracks) {
        Some(subtitles) => subtitles,
        None => {
            return Err(IdentifyError::InvalidReport);
        },
    };
    let menus = select_kind(tracks, "Menu");
    let chapters = if menus.len() == 0 {
        let none: Vec<Chapter> = Vec::new();
        assert(views(none@) =~= Seq::<ChapterView>::empty());
        none
    } else {
        assert(views(menus@)[0] == menus@[0]@);
        match read_chapters(&menus[0].extra) {
            Some(chapters) => chapters,
            None => {
                return Err(IdentifyError::InvalidReport);
            },
        }
    };
    let fonts = read_fonts(sha.as_str(), general);
    Ok(MediaInfo { sha, path, length, container, video, audios, subtitles, fonts, chapters })
}

/// Identifies the file at `path` from the inspector's run: whether it ended
/// with success, and what it printed.
pub fn identify(path: String, succeeded: bool, report: &str) -> (r: Result<
    MediaInfo,
    IdentifyError,
>)
    ensures
        match r {
            Ok(info) => identified_report(path@, succeeded, report@) == Ok::<
                MediaInfoView,
                IdentifyError,
            >(info@),
            Err(e) => identified_report(path@, succeeded, report@) == Err::<
                MediaInfoView,
                IdentifyError,
            >(e),
        },
{
    if !succeeded {
        return Err(IdentifyError::ProbeFailed);
    }
    match read_report(report) {
        Some(tracks) => identify_tracks(path, &tracks),
        None => Err(IdentifyError::InvalidReport),
    }
}

/// The run of the media tool that extracts the attachments and the subtitles
/// of a file into its metadata directory.
#[derive(Debug, PartialEq, Eq)]
pub struct Extraction {
    /// The metadata directory of the file; the extraction is due while it is missing.
    pub metadata_dir: String,
    /// The directory to create for the attachments.
    pub attachments_dir: String,
    /// The directory to create for the subtitles.
    pub subtitles_dir: String,
    /// The directory in which the tool runs, into which it dumps the attachments.
    pub working_dir: String,
    /// The arguments of the tool.
    pub args: Vec<String>,
}

/// The model of an [`Extraction`].
pub struct ExtractionView {
    pub metadata_dir: Seq<char>,
    pub attachments_dir: Seq<char>,
    pub subtitles_dir: Seq<char>,
    pub working_dir: Seq<char>,
    pub args: Seq<Seq<char>>,
}

impl View for Extraction {
    type V = ExtractionView;

    open spec fn view(&self) -> ExtractionView {
        ExtractionView {
            metadata_dir: self.metadata_dir@,
            attachments_dir: self.attachments_dir@,
            subtitles_dir: self.subtitles_dir@,
            working_dir: self.working_dir@,
            args: texts(self.args@),
        }
    }
}

/// The file into which a subtitle is extracted.
pub open spec fn subtitle_file(sha: Seq<char>, index: u32, extension: Seq<char>) -> Seq<char> {
    metadata_dir(sha) + "/sub/"@ + decimal(index as nat) + "."@ + extension
}

/// The arguments that extract one subtitle: none for a codec without extension.
pub open spec fn subtitle_args(sha: Seq<char>, subtitle: SubtitleView) -> Seq<Seq<char>> {
    match subtitle.extension {
        Some(extension) => seq![
            "-map"@,
            "0:s:"@ + decimal(subtitle.index as nat),
            "-c:s"@,
            "copy"@,
            subtitle_file(sha, subtitle.index, extension),
        ],
        None => Seq::empty(),
    }
}

/// The arguments of the extraction: dump every attachment, read the file at
/// `path`, then copy out each subtitle that has an extension, in order.
pub open spec fn extract_args(path: Seq<char>, sha: Seq<char>, subtitles: Seq<SubtitleView>) -> Seq<
    Seq<char>,
>
    decreases subtitles.len(),
{
    if subtitles.len() == 0 {
        seq!["-dump_attachment:t"@, ""@, "-i"@, path]
    } else {
        extract_args(path, sha, subtitles.drop_last()) + subtitle_args(sha, subtitles.last())
    }
}

/// The extraction for a file.
pub open spec fn extraction_of(path: Seq<char>, sha: Seq<char>, subtitles: Seq<SubtitleView>)
    -> ExtractionView {
    ExtractionView {
        metadata_dir: metadata_dir(sha),
        attachments_dir: metadata_dir(sha) + "/att"@,
        subtitles_dir: metadata_dir(sha) + "/sub"@,
        working_dir: metadata_dir(sha) + "/att/"@,
        args: extract_args(path, sha, subtitles),
    }
}

fn push_subtitle_args(args: &mut Vec<String>, sha: &str, subtitle: &Subtitle)
    ensures
        texts(final(args)@) == texts(old(args)@) + subtitle_args(sha@, subtitle@),
{
    match &subtitle.extension {
        Some(extension) => {
            push_text(args, "-map");
            let mut stream = "0:s:".to_owned();
            push_decimal(&mut stream, subtitle.index as u64);
            push_string(args, stream);
            push_text(args, "-c:s");
            push_text(args, "copy");
            let mut file = get_metadata_dir(sha);
            file.append("/sub/");
            push_decimal(&mut file, subtitle.index as u64);
            file.append(".");
            file.append(extension.as_str());
            push_string(args, file);
            assert(texts(args@) =~= texts(old(args)@) + subtitle_args(sha@, subtitle@));
        },
        None => {
            assert(texts(args@) =~= texts(old(args)@) + subtitle_args(sha@, subtitle@));
        },
    }
}

/// Plans the extraction of the attachments and subtitles of the file at
/// `path`, whose content key is `sha`.
pub fn extract(path: &str, sha: &str, subs: &Vec<Subtitle>) -> (plan: Extraction)
    ensures
        plan@ == extraction_of(path@, sha@, views(subs@)),
{
    let mut args: Vec<String> = Vec::new();
    push_text(&mut args, "-dump_attachment:t");
    push_text(&mut args, "");
    push_text(&mut args, "-i");
    push_text(&mut args, path);
    let ghost all = views(subs@);
    let mut i: usize = 0;
    assert(all.take(0) =~= Seq::<SubtitleView>::empty());
    assert(texts(args@) =~= extract_args(path@, sha@, all.take(0)));
    while i < subs.len()
        invariant
            i <= subs.len(),
            all == views(subs@),
            texts(args@) == extract_args(path@, sha@, all.take(i as int)),
        decreases subs.len() - i,
    {
        assert(all.take(i + 1).drop_last() == all.take(i as int));
        assert(all.take(i + 1).last() == subs@[i as int]@);
        push_subtitle_args(&mut args, sha, &subs[i]);
        i += 1;
    }
    assert(all.take(subs.len() as int) == all);
    let metadata_dir = get_metadata_dir(sha);
    let mut attachments_dir = get_metadata_dir(sha);
    attachments_dir.append("/att");
    let mut subtitles_dir = get_metadata_dir(sha);
    subtitles_dir.append("/sub");
    let mut working_dir = get_metadata_dir(sha);
    working_dir.append("/att/");
    Extraction { metadata_dir, attachments_dir, subtitles_dir, working_dir, args }
}

impl MediaInfo {
    /// The extraction that is due for this file: none once its metadata
    /// directory exists, so that a file is extracted once.
    pub fn extraction(&self, metadata_exists: bool) -> (plan: Option<Extraction>)
        ensures
            plan is None <==> metadata_exists,
            plan matches Some(p) ==> p@ == extraction_of(self@.path, self@.sha, self@.subtitles),
    {
        if metadata_exists {
            None
        } else {
            Some(extract(self.path.as_str(), self.sha.as_str(), &self.subtitles))
        }
    }

    /// The outcome of the identification once the extraction that was due
    /// has run: a failed extraction fails the identification.
    pub fn after_extraction(self, succeeded: bool) -> (r: Result<MediaInfo, IdentifyError>)
        ensures
            r == extraction_outcome(self, succeeded),
    {
        if succeeded {
            Ok(self)
        } else {
            Err(IdentifyError::ExtractionFailed)
        }
    }
}

/// The outcome of an identification whose extraction has run.
pub open spec fn extraction_outcome(info: MediaInfo, succeeded: bool) -> Result<
    MediaInfo,
    IdentifyError,
> {
    if succeeded {
        Ok(info)
    } else {
        Err(IdentifyError::ExtractionFailed)
    }
}

} // verus!
