//! The master playlist: the HLS multivariant manifest of a file, which offers
//! the source stream, the rungs of the quality ladder below it, and the audio
//! tracks as alternates.

use crate::identify::{Audio, AudioView, MediaInfo, MediaInfoView, Video, VideoView};
use crate::model::views;
use crate::quality::Quality;
use crate::text::{decimal, push_decimal};
use vstd::prelude::*;
use vstd::string::*;

verus! {

/// The peak bandwidth announced for the source stream: its bitrate and a
/// fifth more, rounded down.
pub open spec fn peak_bandwidth(bitrate: u32) -> nat {
    (bitrate * 6 / 5) as nat
}

/// The width of a variant of height `target` that keeps the aspect of the
/// source: `width / height * target`, rounded to the nearest whole number,
/// halves upwards. A source without height has no aspect: its variants have
/// no width.
pub open spec fn scaled_width(width: u32, height: u32, target: nat) -> nat {
    if height == 0 {
        0
    } else {
        ((2 * (width * target) + height) / (2 * height)) as nat
    }
}

/// The entry of the source stream, passed through untouched.
pub open spec fn original_entry(video: VideoView) -> Seq<char> {
    "#EXT-X-STREAM-INF:AVERAGE-BANDWIDTH="@ + decimal(video.bitrate as nat) + ",BANDWIDTH="@
        + decimal(peak_bandwidth(video.bitrate)) + ",RESOLUTION="@ + decimal(video.width as nat)
        + "x"@ + decimal(video.height as nat) + ",AUDIO=\"audio\"\n./original/index.m3u8\n"@
}

/// The entry of the rung `quality` for a source.
pub open spec fn variant_entry(video: VideoView, quality: Quality) -> Seq<char> {
    "#EXT-X-STREAM-INF:AVERAGE-BANDWIDTH="@ + decimal(quality.spec_average_bitrate())
        + ",BANDWIDTH="@ + decimal(quality.spec_max_bitrate()) + ",RESOLUTION="@ + decimal(
        scaled_width(video.width, video.height, quality.spec_height()),
    ) + "x"@ + decimal(quality.spec_height())
        + ",CODECS=\"avc1.640028\",AUDIO=\"audio\"\n./"@ + quality.name() + "/index.m3u8\n"@
}

/// Whether a rung is offered for a source: it is lower than the rung chosen
/// for the source, so that the height of the source is not offered twice.
pub open spec fn is_listed(video: VideoView, quality: Quality) -> bool {
    quality.spec_height() < video.quality.spec_height()
}

/// The entries of those of `rungs` that are offered for a source, in order.
pub open spec fn variant_entries(video: VideoView, rungs: Seq<Quality>) -> Seq<char>
    decreases rungs.len(),
{
    if rungs.len() == 0 {
        Seq::empty()
    } else if is_listed(video, rungs.last()) {
        variant_entries(video, rungs.drop_last()) + variant_entry(video, rungs.last())
    } else {
        variant_entries(video, rungs.drop_last())
    }
}

/// The name under which an audio track is offered: its title, else its
/// language, else `Audio` and its index. A track is never left without name.
pub open spec fn audio_name(audio: AudioView) -> Seq<char> {
    match audio.title {
        Some(title) => title,
        None => match audio.language {
            Some(language) => language,
            None => "Audio "@ + decimal(audio.index as nat),
        },
    }
}

/// The language attribute of an audio track; nothing for a track without language.
pub open spec fn audio_language(audio: AudioView) -> Seq<char> {
    match audio.language {
        Some(language) => "LANGUAGE=\""@ + language + "\","@,
        None => Seq::empty(),
    }
}

/// The entry of an audio track. Every track is announced as the default one.
pub open spec fn audio_entry(audio: AudioView) -> Seq<char> {
    "#EXT-X-MEDIA:TYPE=AUDIO,GROUP-ID=\"audio\","@ + audio_language(audio) + "NAME=\""@
        + audio_name(audio) + "\",DEFAULT=YES,URI=\"./audio/"@ + decimal(audio.index as nat)
        + "/index.m3u8\"\n"@
}

/// The entries of the audio tracks, in order.
pub open spec fn audio_entries(audios: Seq<AudioView>) -> Seq<char>
    decreases audios.len(),
{
    if audios.len() == 0 {
        Seq::empty()
    } else {
        audio_entries(audios.drop_last()) + audio_entry(audios.last())
    }
}

/// The master playlist of a file: the header, the source stream, the rungs of
/// the ladder that are offered, and the audio tracks.
pub open spec fn master_playlist(info: MediaInfoView) -> Seq<char> {
    "#EXTM3U\n"@ + original_entry(info.video) + variant_entries(info.video, Quality::ladder())
        + audio_entries(info.audios)
}

fn get_peak_bandwidth(bitrate: u32) -> (peak: u64)
    ensures
        peak == peak_bandwidth(bitrate),
{
    bitrate as u64 * 6 / 5
}

fn get_scaled_width(width: u32, height: u32, target: u32) -> (scaled: u64)
    requires
        target <= 4320,
    ensures
        scaled == scaled_width(width, height, target as nat),
{
    if height == 0 {
        0
    } else {
        assert(width * target <= 0xffff_ffff * 4320) by (nonlinear_arith)
            requires
                width <= 0xffff_ffff,
                target <= 4320,
        ;
        let product: u64 = width as u64 * target as u64;
        (2 * product + height as u64) / (2 * height as u64)
    }
}

fn push_original_entry(out: &mut String, video: &Video)
    ensures
        final(out)@ == old(out)@ + original_entry(video@),
{
    let mut entry = "#EXT-X-STREAM-INF:AVERAGE-BANDWIDTH=".to_owned();
    push_decimal(&mut entry, video.bitrate as u64);
    entry.append(",BANDWIDTH=");
    push_decimal(&mut entry, get_peak_bandwidth(video.bitrate));
    entry.append(",RESOLUTION=");
    push_decimal(&mut entry, video.width as u64);
    entry.append("x");
    push_decimal(&mut entry, video.height as u64);
    entry.append(",AUDIO=\"audio\"\n./original/index.m3u8\n");
    out.append(entry.as_str());
}

fn push_variant_entry(out: &mut String, video: &Video, quality: Quality)
    requires
        quality != Quality::Original,
    ensures
        final(out)@ == old(out)@ + variant_entry(video@, quality),
{
    let mut entry = "#EXT-X-STREAM-INF:AVERAGE-BANDWIDTH=".to_owned();
    push_decimal(&mut entry, quality.average_bitrate() as u64);
    entry.append(",BANDWIDTH=");
    push_decimal(&mut entry, quality.max_bitrate() as u64);
    entry.append(",RESOLUTION=");
    push_decimal(&mut entry, get_scaled_width(video.width, video.height, quality.height()));
    entry.append("x");
    push_decimal(&mut entry, quality.height() as u64);
    entry.append(",CODECS=\"avc1.640028\",AUDIO=\"audio\"\n./");
    entry.append(quality.as_str());
    entry.append("/index.m3u8\n");
    out.append(entry.as_str());
}

fn push_audio_entry(out: &mut String, audio: &Audio)
    ensures
        final(out)@ == old(out)@ + audio_entry(audio@),
{
    let mut entry = "#EXT-X-MEDIA:TYPE=AUDIO,GROUP-ID=\"audio\",".to_owned();
    match &audio.language {
        Some(language) => {
            let mut attribute = "LANGUAGE=\"".to_owned();
            attribute.append(language.as_str());
            attribute.append("\",");
            entry.append(attribute.as_str());
        },
        None => {
            assert(entry@ + Seq::<char>::empty() == entry@);
        },
    }
    entry.append("NAME=\"");
    match &audio.title {
        Some(title) => {
            entry.append(title.as_str());
        },
        None => match &audio.language {
            Some(language) => {
                entry.append(language.as_str());
            },
            None => {
                let mut name = "Audio ".to_owned();
                push_decimal(&mut name, audio.index as u64);
                entry.append(name.as_str());
            },
        },
    }
    entry.append("\",DEFAULT=YES,URI=\"./audio/");
    push_decimal(&mut entry, audio.index as u64);
    entry.append("/index.m3u8\"\n");
    out.append(entry.as_str());
}

/// Renders the master playlist of an identified file.
///
/// The rung chosen for the source must be a rung: `Original` has no height
/// to compare the ladder with.
pub fn master(info: &MediaInfo) -> (playlist: String)
    requires
        info@.video.quality != Quality::Original,
    ensures
        playlist@ == master_playlist(info@),
{
    let mut playlist = "#EXTM3U\n".to_owned();
    push_original_entry(&mut playlist, &info.video);
    let ghost head = playlist@;
    let rungs = Quality::iter();
    let limit = info.video.quality.height();
    let mut i: usize = 0;
    assert(rungs@.take(0) =~= Seq::<Quality>::empty());
    assert(head + Seq::<char>::empty() == head);
    while i < rungs.len()
        invariant
            i <= rungs.len(),
            rungs@ == Quality::ladder(),
            limit == info@.video.quality.spec_height(),
            playlist@ == head + variant_entries(info@.video, rungs@.take(i as int)),
        decreases rungs.len() - i,
    {
        let quality = rungs[i];
        let ghost before = variant_entries(info@.video, rungs@.take(i as int));
        assert(rungs@.take(i + 1).drop_last() == rungs@.take(i as int));
        assert(rungs@.take(i + 1).last() == quality);
        assert(quality != Quality::Original);
        if quality.height() < limit {
            push_variant_entry(&mut playlist, &info.video, quality);
            assert(head + before + variant_entry(info@.video, quality) == head + (before
                + variant_entry(info@.video, quality)));
        }
        i += 1;
    }
    assert(rungs@.take(rungs.len() as int) == rungs@);
    let ghost middle = playlist@;
    let ghost all = views(info.audios@);
    let mut k: usize = 0;
    assert(all.take(0) =~= Seq::<AudioView>::empty());
    assert(middle + Seq::<char>::empty() == middle);
    while k < info.audios.len()
        invariant
            k <= info.audios.len(),
            all == views(info.audios@),
            playlist@ == middle + audio_entries(all.take(k as int)),
        decreases info.audios.len() - k,
    {
        let ghost before = audio_entries(all.take(k as int));
        assert(all.take(k + 1).drop_last() == all.take(k as int));
        assert(all.take(k + 1).last() == info.audios@[k as int]@);
        push_audio_entry(&mut playlist, &info.audios[k]);
        assert(middle + before + audio_entry(info.audios@[k as int]@) == middle + (before
            + audio_entry(info.audios@[k as int]@)));
        k += 1;
    }
    assert(all.take(info.audios.len() as int) == all);
    playlist
}

/// Whether the rung of a video is the one chosen for its height.
pub open spec fn has_own_rung(video: VideoView) -> bool {
    video.quality == Quality::spec_from_height(video.height as nat)
}

/// The master playlist offers no rung as high as the source or higher: every
/// rung that it lists for a video with its own rung is lower than the video.
pub proof fn lemma_listed_rungs_are_lower(video: VideoView, i: int)
    requires
        has_own_rung(video),
        0 <= i < Quality::ladder().len(),
        is_listed(video, Quality::ladder()[i]),
    ensures
        Quality::ladder()[i].spec_height() < video.height,
{
}

} // verus!
