//! The session manager: the registry of the running video sessions, one for
//! each client at most, and of the audio jobs, one for each audio track of a
//! file at most.
//!
//! The registry decides; it starts and stops nothing. A request is answered
//! with a plan (serve what is there, or start an encoder, after cancelling the
//! session that it replaces), and a session enters the registry once its
//! encoder has been started. The handle of a running encoder is carried
//! through as a value of the type `J`.

use crate::cache::{
    audio_dir, audio_playlist, audio_segment, get_audio_path, get_audio_playlist,
    get_session_playlist, get_session_segment, session_playlist, session_segment, TranscodeInfo,
    TranscodeInfoView,
};
use crate::encode::{
    audio_args, command_of, is_session_id, new_session_id, transcode_audio, video_launch,
    video_launch_of, EncoderCommand, EncoderCommandView, VideoLaunch, VideoLaunchView,
};
use crate::error::SegmentError;
use crate::identify::MediaInfo;
use crate::master::{master, master_playlist};
use crate::model::view_of;
use crate::quality::Quality;
use crate::text::{push_decimal_two, str_eq};
use vstd::prelude::*;
use vstd::string::*;

verus! {

/// The registry of the running sessions and jobs.
pub struct Transcoder<J> {
    running: Vec<(String, TranscodeInfo<J>)>,
    audio_jobs: Vec<(String, u32)>,
}

/// The model of a [`Transcoder`]: the session of each client that has one,
/// and the set of the audio jobs that were started.
pub struct TranscoderView<J> {
    pub running: Map<Seq<char>, TranscodeInfoView<J>>,
    pub audio_jobs: Set<(Seq<char>, u32)>,
}

/// What to do for a client that asks for a show at a quality.
#[derive(Debug, PartialEq, Eq)]
pub enum VideoPlan<J> {
    /// The client's session already encodes this: serve its playlist.
    Serve { playlist: String },
    /// Start an encoder. `cancelled` is the session that the client had for
    /// something else: it has left the registry, its encoder is to be
    /// interrupted and its directory removed before the new encoder starts.
    Start { cancelled: Option<TranscodeInfo<J>>, launch: VideoLaunch },
}

/// The model of a [`VideoPlan`].
pub enum VideoPlanView<J> {
    Serve { playlist: Seq<char> },
    Start { cancelled: Option<TranscodeInfoView<J>>, launch: VideoLaunchView },
}

impl<J> View for VideoPlan<J> {
    type V = VideoPlanView<J>;

    open spec fn view(&self) -> VideoPlanView<J> {
        match self {
            VideoPlan::Serve { playlist } => VideoPlanView::Serve { playlist: playlist@ },
            VideoPlan::Start { cancelled, launch } => VideoPlanView::Start {
                cancelled: view_of(*cancelled),
                launch: launch@,
            },
        }
    }
}

/// What to do for a request for an audio track: start the encoder where the
/// job is new, then serve the playlist of the job.
#[derive(Debug, PartialEq, Eq)]
pub struct AudioPlan {
    pub launch: Option<EncoderCommand>,
    pub playlist: String,
}

/// The model of an [`AudioPlan`].
pub struct AudioPlanView {
    pub launch: Option<EncoderCommandView>,
    pub playlist: Seq<char>,
}

impl View for AudioPlan {
    type V = AudioPlanView;

    open spec fn view(&self) -> AudioPlanView {
        AudioPlanView { launch: view_of(self.launch), playlist: self.playlist@ }
    }
}

/// Whether a client's session encodes the show at the quality.
pub open spec fn is_serving<J>(
    state: TranscoderView<J>,
    client: Seq<char>,
    path: Seq<char>,
    quality: Quality,
) -> bool {
    &&& state.running.contains_key(client)
    &&& state.running[client].path == path
    &&& state.running[client].quality == quality
}

/// The session of a client, if it has one.
pub open spec fn session_of<J>(state: TranscoderView<J>, client: Seq<char>) -> Option<
    TranscodeInfoView<J>,
> {
    if state.running.contains_key(client) {
        Some(state.running[client])
    } else {
        None
    }
}

/// The registry and the plan after a client has asked for a show at a
/// quality, where `uuid` is the name drawn for a new session directory.
///
/// A session of the client for the same show and quality is served as it is.
/// Otherwise the client's session, if it has one, leaves the registry and is
/// handed out to be cancelled, and an encoder is to start in the directory
/// `uuid`. No other client's session is looked at or touched.
pub open spec fn video_step<J>(
    state: TranscoderView<J>,
    client: Seq<char>,
    path: Seq<char>,
    quality: Quality,
    start_time: u32,
    uuid: Seq<char>,
) -> (TranscoderView<J>, VideoPlanView<J>) {
    if is_serving(state, client, path, quality) {
        (state, VideoPlanView::Serve { playlist: session_playlist(state.running[client].uuid) })
    } else {
        (
            TranscoderView {
                running: state.running.remove(client),
                audio_jobs: state.audio_jobs,
            },
            VideoPlanView::Start {
                cancelled: session_of(state, client),
                launch: video_launch_of(path, quality, start_time, uuid),
            },
        )
    }
}

/// The registry after the session `info` of a client has been entered.
pub open spec fn register_step<J>(
    state: TranscoderView<J>,
    client: Seq<char>,
    info: TranscodeInfoView<J>,
) -> TranscoderView<J> {
    TranscoderView { running: state.running.insert(client, info), audio_jobs: state.audio_jobs }
}

/// The registry and the plan after a request for the audio track `audio` of
/// the file at `path`: the job is started unless it was started before, and
/// it is in the registry from then on.
pub open spec fn audio_step<J>(state: TranscoderView<J>, path: Seq<char>, audio: u32) -> (
    TranscoderView<J>,
    AudioPlanView,
) {
    (
        TranscoderView {
            running: state.running,
            audio_jobs: state.audio_jobs.insert((path, audio)),
        },
        AudioPlanView {
            launch: if state.audio_jobs.contains((path, audio)) {
                None
            } else {
                Some(command_of(path, audio_dir(path, audio), audio_args(audio), 0))
            },
            playlist: audio_playlist(path, audio),
        },
    )
}

/// The session that a launch has started: it encodes the show that was
/// asked for, in the directory that the launch fills, and holds the handle of
/// the encoder.
pub fn started<J>(launch: VideoLaunch, path: String, quality: Quality, job: J) -> (info:
    TranscodeInfo<J>)
    ensures
        info@ == (TranscodeInfoView { path: path@, quality, job, uuid: launch@.uuid }),
{
    TranscodeInfo { show: (path, quality), job, uuid: launch.uuid }
}

spec fn key_at<J>(entries: Seq<(String, TranscodeInfo<J>)>, i: int) -> Seq<char> {
    entries[i].0@
}

spec fn unique_keys<J>(entries: Seq<(String, TranscodeInfo<J>)>) -> bool {
    forall|i: int, j: int|
        0 <= i < entries.len() && 0 <= j < entries.len() && i != j ==> key_at(entries, i)
            != key_at(entries, j)
}

spec fn holds_at<J>(entries: Seq<(String, TranscodeInfo<J>)>, key: Seq<char>, i: int) -> bool {
    0 <= i < entries.len() && key_at(entries, i) == key
}

spec fn running_map<J>(entries: Seq<(String, TranscodeInfo<J>)>) -> Map<
    Seq<char>,
    TranscodeInfoView<J>,
> {
    Map::new(
        |key: Seq<char>| exists|i: int| holds_at(entries, key, i),
        |key: Seq<char>| entries[choose|i: int| holds_at(entries, key, i)].1@,
    )
}

spec fn job_at(jobs: Seq<(String, u32)>, key: (Seq<char>, u32), i: int) -> bool {
    0 <= i < jobs.len() && jobs[i].0@ == key.0 && jobs[i].1 == key.1
}

spec fn job_set(jobs: Seq<(String, u32)>) -> Set<(Seq<char>, u32)> {
    Set::new(|key: (Seq<char>, u32)| exists|i: int| job_at(jobs, key, i))
}

proof fn lemma_entry_is_mapped<J>(entries: Seq<(String, TranscodeInfo<J>)>, i: int)
    requires
        unique_keys(entries),
        0 <= i < entries.len(),
    ensures
        running_map(entries).contains_key(key_at(entries, i)),
        running_map(entries)[key_at(entries, i)] == entries[i].1@,
{
    let key = key_at(entries, i);
    assert(holds_at(entries, key, i));
    let j = choose|j: int| holds_at(entries, key, j);
    assert(holds_at(entries, key, j));
    if j != i {
        assert(key_at(entries, i) != key_at(entries, j));
    }
}

proof fn lemma_remove_entry<J>(entries: Seq<(String, TranscodeInfo<J>)>, i: int)
    requires
        unique_keys(entries),
        0 <= i < entries.len(),
    ensures
        unique_keys(entries.remove(i)),
        running_map(entries.remove(i)) == running_map(entries).remove(key_at(entries, i)),
{
    let rest = entries.remove(i);
    let gone = key_at(entries, i);
    assert forall|a: int, b: int| 0 <= a < rest.len() && 0 <= b < rest.len() && a != b implies key_at(
        rest,
        a,
    ) != key_at(rest, b) by {
        let a0 = if a < i {
            a
        } else {
            a + 1
        };
        let b0 = if b < i {
            b
        } else {
            b + 1
        };
        assert(key_at(rest, a) == key_at(entries, a0));
        assert(key_at(rest, b) == key_at(entries, b0));
    }
    assert forall|key: Seq<char>| #[trigger]
        running_map(rest).contains_key(key) == running_map(entries).remove(gone).contains_key(
            key,
        ) by {
        if running_map(rest).contains_key(key) {
            let a = choose|a: int| holds_at(rest, key, a);
            let a0 = if a < i {
                a
            } else {
                a + 1
            };
            assert(holds_at(entries, key, a0));
            assert(key_at(entries, a0) != key_at(entries, i));
        }
        if running_map(entries).remove(gone).contains_key(key) {
            let b = choose|b: int| holds_at(entries, key, b);
            assert(holds_at(entries, key, b));
            assert(b != i);
            let b1 = if b < i {
                b
            } else {
                b - 1
            };
            assert(holds_at(rest, key, b1));
        }
    }
    assert forall|key: Seq<char>| #[trigger] running_map(rest).contains_key(key) implies running_map(
        rest,
    )[key] == running_map(entries).remove(gone)[key] by {
        let a = choose|a: int| holds_at(rest, key, a);
        assert(holds_at(rest, key, a));
        let a0 = if a < i {
            a
        } else {
            a + 1
        };
        assert(rest[a] == entries[a0]);
        lemma_entry_is_mapped(entries, a0);
    }
    assert(running_map(rest) =~= running_map(entries).remove(gone));
}

proof fn lemma_push_entry<J>(
    entries: Seq<(String, TranscodeInfo<J>)>,
    entry: (String, TranscodeInfo<J>),
)
    requires
        unique_keys(entries),
        !running_map(entries).contains_key(entry.0@),
    ensures
        unique_keys(entries.push(entry)),
        running_map(entries.push(entry)) == running_map(entries).insert(entry.0@, entry.1@),
{
    let more = entries.push(entry);
    let last = entries.len() as int;
    assert forall|a: int, b: int| 0 <= a < more.len() && 0 <= b < more.len() && a != b implies key_at(
        more,
        a,
    ) != key_at(more, b) by {
        if a < last && b < last {
            assert(key_at(more, a) == key_at(entries, a));
            assert(key_at(more, b) == key_at(entries, b));
        } else if a < last {
            assert(holds_at(entries, key_at(entries, a), a));
        } else {
            assert(holds_at(entries, key_at(entries, b), b));
        }
    }
    assert forall|key: Seq<char>| #[trigger]
        running_map(more).contains_key(key) == running_map(entries).insert(
            entry.0@,
            entry.1@,
        ).contains_key(key) by {
        if running_map(more).contains_key(key) {
            let a = choose|a: int| holds_at(more, key, a);
            if a < last {
                assert(holds_at(entries, key, a));
            }
        }
        if running_map(entries).contains_key(key) {
            let b = choose|b: int| holds_at(entries, key, b);
            assert(holds_at(more, key, b));
        }
        if key == entry.0@ {
            assert(holds_at(more, key, last));
        }
    }
    assert forall|key: Seq<char>| #[trigger] running_map(more).contains_key(key) implies running_map(
        more,
    )[key] == running_map(entries).insert(entry.0@, entry.1@)[key] by {
        let a = choose|a: int| holds_at(more, key, a);
        assert(holds_at(more, key, a));
        lemma_entry_is_mapped(more, a);
        if a < last {
            assert(more[a] == entries[a]);
            assert(holds_at(entries, key, a));
            lemma_entry_is_mapped(entries, a);
        }
    }
    assert(running_map(more) =~= running_map(entries).insert(entry.0@, entry.1@));
}

impl<J> View for Transcoder<J> {
    type V = TranscoderView<J>;

    closed spec fn view(&self) -> TranscoderView<J> {
        TranscoderView {
            running: running_map(self.running@),
            audio_jobs: job_set(self.audio_jobs@),
        }
    }
}

impl<J> Transcoder<J> {
    /// The invariant of the registry: no client has two sessions.
    pub closed spec fn well_formed(&self) -> bool {
        unique_keys(self.running@)
    }

    /// An empty registry.
    pub fn new() -> (transcoder: Transcoder<J>)
        ensures
            transcoder.well_formed(),
            transcoder@.running == Map::<Seq<char>, TranscodeInfoView<J>>::empty(),
            transcoder@.audio_jobs == Set::<(Seq<char>, u32)>::empty(),
    {
        let transcoder = Transcoder { running: Vec::new(), audio_jobs: Vec::new() };
        assert(transcoder@.running =~= Map::<Seq<char>, TranscodeInfoView<J>>::empty());
        assert(transcoder@.audio_jobs =~= Set::<(Seq<char>, u32)>::empty());
        transcoder
    }

    fn position(&self, client_id: &str) -> (found: Option<usize>)
        requires
            self.well_formed(),
        ensures
            found is Some <==> self@.running.contains_key(client_id@),
            found matches Some(i) ==> i < self.running@.len() && key_at(self.running@, i as int)
                == client_id@ && self@.running[client_id@] == self.running@[i as int].1@,
    {
        let mut i: usize = 0;
        while i < self.running.len()
            invariant
                i <= self.running.len(),
                self.well_formed(),
                forall|k: int| 0 <= k < i ==> key_at(self.running@, k) != client_id@,
            decreases self.running.len() - i,
        {
            if str_eq(self.running[i].0.as_str(), client_id) {
                proof {
                    lemma_entry_is_mapped(self.running@, i as int);
                }
                return Some(i);
            }
            i += 1;
        }
        proof {
            if self@.running.contains_key(client_id@) {
                let k = choose|k: int| holds_at(self.running@, client_id@, k);
                assert(holds_at(self.running@, client_id@, k));
            }
        }
        None
    }

    /// The master playlist of an identified file; none for a file that could
    /// not be identified.
    pub fn build_master(&self, info: Option<&MediaInfo>) -> (playlist: Option<String>)
        requires
            info matches Some(i) ==> i@.video.quality != Quality::Original,
        ensures
            view_of(playlist) == match info {
                Some(i) => Some(master_playlist(i@)),
                None => None,
            },
    {
        match info {
            Some(i) => Some(master(i)),
            None => None,
        }
    }

    /// Decides what to do for a client that asks for the file at `path` at
    /// `quality`, where a new session would get the directory `uuid`.
    pub fn transcode_into(
        &mut self,
        client_id: &str,
        path: &str,
        quality: Quality,
        start_time: u32,
        uuid: String,
    ) -> (plan: VideoPlan<J>)
        requires
            old(self).well_formed(),
        ensures
            final(self).well_formed(),
            (final(self)@, plan@) == video_step(
                old(self)@,
                client_id@,
                path@,
                quality,
                start_time,
                uuid@,
            ),
    {
        match self.position(client_id) {
            Some(i) => {
                let same = str_eq(self.running[i].1.show.0.as_str(), path)
                    && self.running[i].1.show.1 == quality;
                if same {
                    VideoPlan::Serve { playlist: get_session_playlist(&self.running[i].1.uuid) }
                } else {
                    proof {
                        lemma_remove_entry(self.running@, i as int);
                    }
                    let gone = self.running.remove(i);
                    VideoPlan::Start {
                        cancelled: Some(gone.1),
                        launch: video_launch(path, quality, start_time, uuid),
                    }
                }
            },
            None => {
                assert(self@.running.remove(client_id@) =~= self@.running);
                VideoPlan::Start {
                    cancelled: None,
                    launch: video_launch(path, quality, start_time, uuid),
                }
            },
        }
    }

    /// Decides what to do for a client that asks for the file at `path` at
    /// `quality`. A new session gets a directory with a fresh random name.
    pub fn transcode(&mut self, client_id: &str, path: &str, quality: Quality, start_time: u32) -> (plan:
        VideoPlan<J>)
        requires
            old(self).well_formed(),
        ensures
            final(self).well_formed(),
            exists|uuid: Seq<char>|
                is_session_id(uuid) && (final(self)@, plan@) == #[trigger] video_step(
                    old(self)@,
                    client_id@,
                    path@,
                    quality,
                    start_time,
                    uuid,
                ),
    {
        let uuid = new_session_id();
        let ghost drawn = uuid@;
        let plan = self.transcode_into(client_id, path, quality, start_time, uuid);
        assert((self@, plan@) == video_step(
            old(self)@,
            client_id@,
            path@,
            quality,
            start_time,
            drawn,
        ));
        plan
    }

    /// Enters the session of a client whose encoder has been started, and
    /// gives the playlist to serve. A session that the client still had is
    /// handed out: it is no longer in the registry.
    pub fn register(&mut self, client_id: String, info: TranscodeInfo<J>) -> (r: (
        String,
        Option<TranscodeInfo<J>>,
    ))
        requires
            old(self).well_formed(),
        ensures
            final(self).well_formed(),
            final(self)@ == register_step(old(self)@, client_id@, info@),
            r.0@ == session_playlist(info@.uuid),
            view_of(r.1) == session_of(old(self)@, client_id@),
    {
        let playlist = get_session_playlist(&info.uuid);
        let displaced = match self.position(client_id.as_str()) {
            Some(i) => {
                proof {
                    lemma_remove_entry(self.running@, i as int);
                }
                Some(self.running.remove(i).1)
            },
            None => {
                assert(self@.running.remove(client_id@) =~= self@.running);
                None
            },
        };
        proof {
            lemma_push_entry(self.running@, (client_id, info));
            assert(old(self)@.running.remove(client_id@).insert(client_id@, info@)
                =~= old(self)@.running.insert(client_id@, info@));
        }
        self.running.push((client_id, info));
        (playlist, displaced)
    }

    /// The file of the segment `chunk` of a client's session. The session is
    /// found by the client alone: the show and the quality asked for are not
    /// looked at, and nothing says that the file exists.
    pub fn get_segment(&self, client_id: &str, _path: &str, _quality: Quality, chunk: u32) -> (r:
        Result<String, SegmentError>)
        requires
            self.well_formed(),
        ensures
            match r {
                Ok(file) => self@.running.contains_key(client_id@) && file@ == session_segment(
                    self@.running[client_id@].uuid,
                    chunk,
                ),
                Err(e) => !self@.running.contains_key(client_id@) && e == SegmentError::NoTranscode,
            },
    {
        match self.position(client_id) {
            Some(i) => Ok(get_session_segment(&self.running[i].1.uuid, chunk)),
            None => Err(SegmentError::NoTranscode),
        }
    }

    fn has_job(&self, path: &str, audio: u32) -> (found: bool)
        ensures
            found == self@.audio_jobs.contains((path@, audio)),
    {
        let mut i: usize = 0;
        while i < self.audio_jobs.len()
            invariant
                i <= self.audio_jobs.len(),
                forall|k: int| 0 <= k < i ==> !job_at(self.audio_jobs@, (path@, audio), k),
            decreases self.audio_jobs.len() - i,
        {
            if self.audio_jobs[i].1 == audio && str_eq(self.audio_jobs[i].0.as_str(), path) {
                assert(job_at(self.audio_jobs@, (path@, audio), i as int));
                return true;
            }
            i += 1;
        }
        false
    }

    /// Decides what to do for a request for the audio track `audio` of the
    /// file at `path`.
    pub fn transcode_audio(&mut self, path: &String, audio: u32) -> (plan: AudioPlan)
        requires
            old(self).well_formed(),
        ensures
            final(self).well_formed(),
            (final(self)@, plan@) == audio_step(old(self)@, path@, audio),
    {
        let playlist = get_audio_playlist(path, audio);
        if self.has_job(path.as_str(), audio) {
            assert(self@.audio_jobs.insert((path@, audio)) =~= self@.audio_jobs);
            AudioPlan { launch: None, playlist }
        } else {
            let ghost before = self.audio_jobs@;
            self.audio_jobs.push((path.clone(), audio));
            proof {
                let after = self.audio_jobs@;
                assert forall|key: (Seq<char>, u32)| #[trigger]
                    job_set(after).contains(key) == job_set(before).insert(
                        (path@, audio),
                    ).contains(key) by {
                    if job_set(after).contains(key) {
                        let i = choose|i: int| job_at(after, key, i);
                        if i < before.len() {
                            assert(job_at(before, key, i));
                        }
                    }
                    if job_set(before).contains(key) {
                        let i = choose|i: int| job_at(before, key, i);
                        assert(job_at(after, key, i));
                    }
                    if key == (path@, audio) {
                        assert(job_at(after, key, before.len() as int));
                    }
                }
                assert(job_set(after) =~= job_set(before).insert((path@, audio)));
            }
            AudioPlan { launch: Some(transcode_audio(path, audio)), playlist }
        }
    }

    /// The file of the segment `chunk` of an audio job. Nothing says that the
    /// job was started or that the file exists.
    pub fn get_audio_segment(&self, path: &String, audio: u32, chunk: u32) -> (r: Result<
        String,
        std::io::Error,
    >)
        ensures
            r matches Ok(file) && file@ == audio_segment(path@, audio, chunk),
    {
        let mut file = get_audio_path(path, audio);
        file.append("/");
        file.append("segments-");
        push_decimal_two(&mut file, chunk as u64);
        file.append(".ts");
        assert(file@ =~= audio_segment(path@, audio, chunk));
        Ok(file)
    }
}

/// Sessions of distinct clients are independent: a request of one client
/// leaves the session of any other client as it is.
pub proof fn lemma_request_keeps_other_sessions<J>(
    state: TranscoderView<J>,
    client: Seq<char>,
    other: Seq<char>,
    path: Seq<char>,
    quality: Quality,
    start_time: u32,
    uuid: Seq<char>,
)
    requires
        client != other,
    ensures
        session_of(video_step(state, client, path, quality, start_time, uuid).0, other)
            == session_of(state, other),
{
}

/// Sessions of distinct clients are independent: what a request of a client
/// is answered, and what becomes of the client's session, depend on no other
/// client's session. Two registries that agree on the client agree on both.
pub proof fn lemma_request_ignores_other_sessions<J>(
    one: TranscoderView<J>,
    two: TranscoderView<J>,
    client: Seq<char>,
    path: Seq<char>,
    quality: Quality,
    start_time: u32,
    uuid: Seq<char>,
)
    requires
        session_of(one, client) == session_of(two, client),
    ensures
        video_step(one, client, path, quality, start_time, uuid).1 == video_step(
            two,
            client,
            path,
            quality,
            start_time,
            uuid,
        ).1,
        session_of(video_step(one, client, path, quality, start_time, uuid).0, client)
            == session_of(video_step(two, client, path, quality, start_time, uuid).0, client),
{
}

/// Entering the session of a client leaves the session of any other client
/// as it is.
pub proof fn lemma_register_keeps_other_sessions<J>(
    state: TranscoderView<J>,
    client: Seq<char>,
    other: Seq<char>,
    info: TranscodeInfoView<J>,
)
    requires
        client != other,
    ensures
        session_of(register_step(state, client, info), other) == session_of(state, other),
        session_of(register_step(state, client, info), client) == Some(info),
{
}

/// A request that is repeated is served from the session that the first one
/// started: once the session of a client is entered, a request of the client
/// for the same show and quality is answered with the playlist of that
/// session and changes nothing, whatever name is drawn and however often.
pub proof fn lemma_repeated_request_is_served<J>(
    state: TranscoderView<J>,
    client: Seq<char>,
    info: TranscodeInfoView<J>,
    start_time: u32,
    uuid: Seq<char>,
)
    ensures
        video_step(
            register_step(state, client, info),
            client,
            info.path,
            info.quality,
            start_time,
            uuid,
        ) == (
            register_step(state, client, info),
            VideoPlanView::<J>::Serve { playlist: session_playlist(info.uuid) },
        ),
{
}

/// A session that is replaced is handed out and gone: where a client with a
/// session asks for another show or quality, the plan hands out that session
/// to be cancelled, and the client has no session until the new one is entered.
pub proof fn lemma_replaced_session_is_cancelled<J>(
    state: TranscoderView<J>,
    client: Seq<char>,
    path: Seq<char>,
    quality: Quality,
    start_time: u32,
    uuid: Seq<char>,
)
    requires
        state.running.contains_key(client),
        !is_serving(state, client, path, quality),
    ensures
        video_step(state, client, path, quality, start_time, uuid).1 == (VideoPlanView::Start {
            cancelled: Some(state.running[client]),
            launch: video_launch_of(path, quality, start_time, uuid),
        }),
        session_of(video_step(state, client, path, quality, start_time, uuid).0, client) is None,
{
}

/// An audio job is started once: after a request for an audio track, a
/// further request for the same track starts nothing.
pub proof fn lemma_audio_job_starts_once<J>(state: TranscoderView<J>, path: Seq<char>, audio: u32)
    ensures
        audio_step(audio_step(state, path, audio).0, path, audio).1.launch is None,
        audio_step(audio_step(state, path, audio).0, path, audio).1.playlist == audio_step(
            state,
            path,
            audio,
        ).1.playlist,
{
}

/// What is served is what was encoded: the playlist that a session is served
/// from is the file that its encoder was told to write, and so is that of an
/// audio job.
pub proof fn lemma_served_playlist_is_the_encoded_one(
    path: Seq<char>,
    quality: Quality,
    start_time: u32,
    uuid: Seq<char>,
    audio: u32,
)
    ensures
        video_launch_of(path, quality, start_time, uuid).command.args.last() == session_playlist(
            uuid,
        ),
        command_of(path, audio_dir(path, audio), audio_args(audio), 0).args.last()
            == audio_playlist(path, audio),
{
    reveal_strlit("/stream.m3u8");
    reveal_strlit("stream.m3u8");
    reveal_strlit("/");
    assert("/stream.m3u8"@ =~= "/"@ + "stream.m3u8"@);
    assert("/cache/"@ + uuid + "/stream.m3u8"@ =~= "/cache/"@ + uuid + "/"@ + "stream.m3u8"@);
}

} // verus!
