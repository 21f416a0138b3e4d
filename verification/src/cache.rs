//! The layout of the segment cache: where a video session and an audio job
//! keep their playlist and segments, and the keys that name their directories.
//!
//! A video session lives under `/cache/{uuid}/`. An audio job is shared by all
//! clients and lives under `/cache/{key}`, where the key is the hash of the
//! source path and the audio index, in lower-case hexadecimal.

use crate::quality::Quality;
use crate::text::{decimal_two, lower_hex, push_decimal_two, push_lower_hex};
use std::collections::hash_map::DefaultHasher;
use std::hash::Hasher;
use vstd::bytes::{spec_u32_to_le_bytes, u32_to_le_bytes};
use vstd::prelude::*;
use vstd::std_specs::hash::DefaultHasherAdditionalSpecFns;
use vstd::string::*;
use vstd::utf8::encode_utf8;

verus! {

/// What hashing a text feeds to the hasher: its UTF-8 bytes, then one byte `0xff`.
pub open spec fn text_writes(s: Seq<char>) -> Seq<Seq<u8>> {
    seq![encode_utf8(s), seq![0xffu8]]
}

/// The 64-bit key of an audio job: the hash of the source path followed by the
/// audio index in little-endian bytes, by the standard hasher with its fixed keys.
pub open spec fn audio_key(path: Seq<char>, audio: u32) -> u64 {
    DefaultHasher::spec_finish(text_writes(path).push(spec_u32_to_le_bytes(audio)))
}

/// The 64-bit hash of two texts, one after the other.
pub open spec fn text_pair_key(first: Seq<char>, second: Seq<char>) -> u64 {
    DefaultHasher::spec_finish(text_writes(first) + text_writes(second))
}

/// The directory of an audio job.
pub open spec fn audio_dir(path: Seq<char>, audio: u32) -> Seq<char> {
    "/cache/"@ + lower_hex(audio_key(path, audio) as nat)
}

/// The directory of a video session, with its closing slash.
pub open spec fn session_dir(uuid: Seq<char>) -> Seq<char> {
    "/cache/"@ + uuid + "/"@
}

/// The file name of a segment: `segments-NN.ts`, the number padded to two digits.
pub open spec fn segment_name(chunk: u32) -> Seq<char> {
    "segments-"@ + decimal_two(chunk as nat) + ".ts"@
}

/// The playlist of the video session `uuid`.
pub open spec fn session_playlist(uuid: Seq<char>) -> Seq<char> {
    session_dir(uuid) + "stream.m3u8"@
}

/// The segment `chunk` of the video session `uuid`.
pub open spec fn session_segment(uuid: Seq<char>, chunk: u32) -> Seq<char> {
    session_dir(uuid) + segment_name(chunk)
}

/// The playlist of an audio job.
pub open spec fn audio_playlist(path: Seq<char>, audio: u32) -> Seq<char> {
    audio_dir(path, audio) + "/stream.m3u8"@
}

/// The segment `chunk` of an audio job.
pub open spec fn audio_segment(path: Seq<char>, audio: u32, chunk: u32) -> Seq<char> {
    audio_dir(path, audio) + "/"@ + segment_name(chunk)
}

fn write_text(hasher: &mut DefaultHasher, s: &str)
    ensures
        final(hasher)@ == old(hasher)@ + text_writes(s@),
{
    hasher.write(s.as_bytes());
    let mut end: Vec<u8> = Vec::new();
    end.push(0xffu8);
    hasher.write(end.as_slice());
    assert(end@ == seq![0xffu8]);
    assert(old(hasher)@.push(encode_utf8(s@)).push(end@) == old(hasher)@ + text_writes(s@));
}

/// The key of an audio job.
pub fn hash_audio(path: &str, audio: u32) -> (key: u64)
    ensures
        key == audio_key(path@, audio),
{
    let mut hasher = DefaultHasher::new();
    write_text(&mut hasher, path);
    let index = u32_to_le_bytes(audio);
    hasher.write(index.as_slice());
    assert(hasher@ == text_writes(path@).push(spec_u32_to_le_bytes(audio)));
    hasher.finish()
}

/// The hash of two texts, one after the other.
pub fn hash_text_pair(first: &str, second: &str) -> (key: u64)
    ensures
        key == text_pair_key(first@, second@),
{
    let mut hasher = DefaultHasher::new();
    write_text(&mut hasher, first);
    write_text(&mut hasher, second);
    assert(hasher@ == text_writes(first@) + text_writes(second@));
    hasher.finish()
}

/// The directory in which the audio job for `(path, audio)` keeps its output.
pub fn get_audio_path(path: &String, audio: u32) -> (dir: String)
    ensures
        dir@ == audio_dir(path@, audio),
{
    let key = hash_audio(path.as_str(), audio);
    let mut dir = "/cache/".to_owned();
    push_lower_hex(&mut dir, key);
    dir
}

/// The directory of the video session `uuid`, with its closing slash.
pub fn get_cache_path_from_uuid(uuid: &String) -> (dir: String)
    ensures
        dir@ == session_dir(uuid@),
{
    let mut dir = "/cache/".to_owned();
    dir.append(uuid.as_str());
    dir.append("/");
    dir
}

fn push_segment_name(out: &mut String, chunk: u32)
    ensures
        final(out)@ == old(out)@ + segment_name(chunk),
{
    out.append("segments-");
    push_decimal_two(out, chunk as u64);
    out.append(".ts");
    assert(old(out)@ + "segments-"@ + decimal_two(chunk as nat) + ".ts"@ == old(out)@ + (
    "segments-"@ + decimal_two(chunk as nat) + ".ts"@));
}

/// The playlist of the video session `uuid`.
pub fn get_session_playlist(uuid: &String) -> (file: String)
    ensures
        file@ == session_playlist(uuid@),
{
    let mut file = get_cache_path_from_uuid(uuid);
    file.append("stream.m3u8");
    file
}

/// The segment `chunk` of the video session `uuid`. Nothing says that it exists.
pub fn get_session_segment(uuid: &String, chunk: u32) -> (file: String)
    ensures
        file@ == session_segment(uuid@, chunk),
{
    let mut file = get_cache_path_from_uuid(uuid);
    push_segment_name(&mut file, chunk);
    file
}

/// The playlist of the audio job for `(path, audio)`.
pub fn get_audio_playlist(path: &String, audio: u32) -> (file: String)
    ensures
        file@ == audio_playlist(path@, audio),
{
    let mut file = get_audio_path(path, audio);
    file.append("/stream.m3u8");
    file
}

/// The running state of one video session: the show it encodes (source path
/// and quality), the handle of its encoder, and the name of its directory.
#[derive(Debug, PartialEq, Eq)]
pub struct TranscodeInfo<J> {
    pub show: (String, Quality),
    pub job: J,
    pub uuid: String,
}

/// The model of a [`TranscodeInfo`].
pub struct TranscodeInfoView<J> {
    pub path: Seq<char>,
    pub quality: Quality,
    pub job: J,
    pub uuid: Seq<char>,
}

impl<J> View for TranscodeInfo<J> {
    type V = TranscodeInfoView<J>;

    open spec fn view(&self) -> TranscodeInfoView<J> {
        TranscodeInfoView {
            path: self.show.0@,
            quality: self.show.1,
            job: self.job,
            uuid: self.uuid@,
        }
    }
}

/// The directory of a session, with its closing slash.
pub fn get_cache_path<J>(info: &TranscodeInfo<J>) -> (dir: String)
    ensures
        dir@ == session_dir(info@.uuid),
{
    get_cache_path_from_uuid(&info.uuid)
}

} // verus!
