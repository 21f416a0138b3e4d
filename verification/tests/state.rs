use transcoder::cache::{get_audio_path, TranscodeInfo};
use transcoder::encode::{transcode_audio, video_launch};
use transcoder::error::SegmentError;
use transcoder::quality::Quality;
use transcoder::state::{started, AudioPlan, Transcoder, VideoPlan};

const PATH: &str = "/video/show/s01e01.mkv";
const OTHER: &str = "/video/show/s01e02.mkv";

fn session(path: &str, quality: Quality, job: u32, uuid: &str) -> TranscodeInfo<u32> {
    TranscodeInfo { show: (path.to_string(), quality), job, uuid: uuid.to_string() }
}

/// Asks for a show, and enters the session where one is to start, as the
/// service does once the encoder is ready. Gives the uuid that is served.
fn play(transcoder: &mut Transcoder<u32>, client: &str, path: &str, quality: Quality, job: u32) -> String {
    match transcoder.transcode(client, path, quality, 0) {
        VideoPlan::Serve { playlist } => playlist,
        VideoPlan::Start { launch, .. } => {
            let info = started(launch, path.to_string(), quality, job);
            transcoder.register(client.to_string(), info).0
        }
    }
}

#[test]
fn a_started_session_holds_the_show_and_the_directory_of_its_launch() {
    let launch = video_launch(PATH, Quality::P720, 5, "U1".to_string());
    assert_eq!(started(launch, PATH.to_string(), Quality::P720, 9u32), session(PATH, Quality::P720, 9, "U1"));
    let mut transcoder: Transcoder<u32> = Transcoder::new();
    let launch = video_launch(PATH, Quality::P720, 5, "U1".to_string());
    let (playlist, _) = transcoder.register("C1".to_string(), started(launch, PATH.to_string(), Quality::P720, 9));
    assert_eq!(playlist, "/cache/U1/stream.m3u8");
    assert_eq!(
        transcoder.transcode("C1", PATH, Quality::P720, 0),
        VideoPlan::Serve { playlist: "/cache/U1/stream.m3u8".to_string() }
    );
}

#[test]
fn a_new_client_starts_an_encoder() {
    let mut transcoder: Transcoder<u32> = Transcoder::new();
    match transcoder.transcode("C1", PATH, Quality::P720, 5) {
        VideoPlan::Start { cancelled, launch } => {
            assert_eq!(cancelled, None);
            assert_eq!(launch.uuid.len(), 30);
            assert!(launch.uuid.chars().all(|c| c.is_ascii_alphanumeric()));
            assert_eq!(launch, video_launch(PATH, Quality::P720, 5, launch.uuid.clone()));
        }
        other => panic!("unexpected plan {:?}", other),
    }
    assert_eq!(transcoder.get_segment("C1", PATH, Quality::P720, 0), Err(SegmentError::NoTranscode));
}

#[test]
fn transcode_into_uses_the_given_directory() {
    let mut transcoder: Transcoder<u32> = Transcoder::new();
    let plan = transcoder.transcode_into("C1", PATH, Quality::P720, 5, "U1".to_string());
    assert_eq!(
        plan,
        VideoPlan::Start { cancelled: None, launch: video_launch(PATH, Quality::P720, 5, "U1".to_string()) }
    );
}

#[test]
fn register_enters_the_session_and_gives_its_playlist() {
    let mut transcoder: Transcoder<u32> = Transcoder::new();
    let (playlist, displaced) = transcoder.register("C1".to_string(), session(PATH, Quality::P720, 1, "U1"));
    assert_eq!(playlist, "/cache/U1/stream.m3u8");
    assert_eq!(displaced, None);
    assert_eq!(transcoder.get_segment("C1", PATH, Quality::P720, 0), Ok("/cache/U1/segments-00.ts".to_string()));
}

#[test]
fn register_hands_out_the_session_it_displaces() {
    let mut transcoder: Transcoder<u32> = Transcoder::new();
    transcoder.register("C1".to_string(), session(PATH, Quality::P720, 1, "U1"));
    let (playlist, displaced) = transcoder.register("C1".to_string(), session(PATH, Quality::P480, 2, "U2"));
    assert_eq!(playlist, "/cache/U2/stream.m3u8");
    assert_eq!(displaced, Some(session(PATH, Quality::P720, 1, "U1")));
    assert_eq!(transcoder.get_segment("C1", PATH, Quality::P480, 3), Ok("/cache/U2/segments-03.ts".to_string()));
}

#[test]
fn a_repeated_request_is_served_from_the_same_session() {
    let mut transcoder: Transcoder<u32> = Transcoder::new();
    transcoder.register("C1".to_string(), session(PATH, Quality::P720, 1, "U1"));
    for start_time in [0, 0, 30] {
        assert_eq!(
            transcoder.transcode("C1", PATH, Quality::P720, start_time),
            VideoPlan::Serve { playlist: "/cache/U1/stream.m3u8".to_string() }
        );
    }
    assert_eq!(
        transcoder.transcode_into("C1", PATH, Quality::P720, 0, "U9".to_string()),
        VideoPlan::Serve { playlist: "/cache/U1/stream.m3u8".to_string() }
    );
    assert_eq!(transcoder.get_segment("C1", PATH, Quality::P720, 1), Ok("/cache/U1/segments-01.ts".to_string()));
}

#[test]
fn a_started_session_is_served_on_the_next_request() {
    let mut transcoder: Transcoder<u32> = Transcoder::new();
    let first = play(&mut transcoder, "C1", PATH, Quality::P720, 1);
    let second = play(&mut transcoder, "C1", PATH, Quality::P720, 2);
    let third = play(&mut transcoder, "C1", PATH, Quality::P720, 3);
    assert_eq!(first, second);
    assert_eq!(second, third);
    assert!(first.starts_with("/cache/"));
    assert!(first.ends_with("/stream.m3u8"));
    assert_eq!(first.len(), "/cache/".len() + 30 + "/stream.m3u8".len());
}

#[test]
fn a_switch_of_quality_cancels_the_old_session() {
    let mut transcoder: Transcoder<u32> = Transcoder::new();
    transcoder.register("C1".to_string(), session(PATH, Quality::P720, 1, "U1"));
    let plan = transcoder.transcode_into("C1", PATH, Quality::P1080, 0, "U2".to_string());
    assert_eq!(
        plan,
        VideoPlan::Start {
            cancelled: Some(session(PATH, Quality::P720, 1, "U1")),
            launch: video_launch(PATH, Quality::P1080, 0, "U2".to_string()),
        }
    );
    assert_eq!(transcoder.get_segment("C1", PATH, Quality::P1080, 0), Err(SegmentError::NoTranscode));
    let (playlist, displaced) = transcoder.register("C1".to_string(), session(PATH, Quality::P1080, 2, "U2"));
    assert_eq!(playlist, "/cache/U2/stream.m3u8");
    assert_eq!(displaced, None);
    assert_eq!(
        transcoder.transcode("C1", PATH, Quality::P1080, 0),
        VideoPlan::Serve { playlist: "/cache/U2/stream.m3u8".to_string() }
    );
}

#[test]
fn a_switch_of_show_cancels_the_old_session() {
    let mut transcoder: Transcoder<u32> = Transcoder::new();
    transcoder.register("C1".to_string(), session(PATH, Quality::P720, 1, "U1"));
    match transcoder.transcode("C1", OTHER, Quality::P720, 0) {
        VideoPlan::Start { cancelled, launch } => {
            assert_eq!(cancelled, Some(session(PATH, Quality::P720, 1, "U1")));
            assert_ne!(launch.uuid, "U1");
            assert_eq!(launch.command.args[9], OTHER);
        }
        other => panic!("unexpected plan {:?}", other),
    }
}

#[test]
fn clients_do_not_touch_each_other() {
    let mut transcoder: Transcoder<u32> = Transcoder::new();
    transcoder.register("A".to_string(), session(PATH, Quality::P720, 1, "UA"));
    transcoder.register("B".to_string(), session(PATH, Quality::P720, 2, "UB"));
    let plan = transcoder.transcode_into("A", PATH, Quality::P1080, 0, "UA2".to_string());
    assert_eq!(
        plan,
        VideoPlan::Start {
            cancelled: Some(session(PATH, Quality::P720, 1, "UA")),
            launch: video_launch(PATH, Quality::P1080, 0, "UA2".to_string()),
        }
    );
    assert_eq!(transcoder.get_segment("B", PATH, Quality::P720, 4), Ok("/cache/UB/segments-04.ts".to_string()));
    assert_eq!(
        transcoder.transcode("B", PATH, Quality::P720, 0),
        VideoPlan::Serve { playlist: "/cache/UB/stream.m3u8".to_string() }
    );
    transcoder.register("A".to_string(), session(PATH, Quality::P1080, 3, "UA2"));
    assert_eq!(transcoder.get_segment("B", PATH, Quality::P720, 4), Ok("/cache/UB/segments-04.ts".to_string()));
    assert_eq!(transcoder.get_segment("A", PATH, Quality::P1080, 4), Ok("/cache/UA2/segments-04.ts".to_string()));
}

#[test]
fn the_plan_of_a_client_is_the_same_whoever_else_is_there() {
    let mut alone: Transcoder<u32> = Transcoder::new();
    let mut crowded: Transcoder<u32> = Transcoder::new();
    crowded.register("B".to_string(), session(PATH, Quality::P1080, 2, "UB"));
    crowded.register("C".to_string(), session(OTHER, Quality::P240, 3, "UC"));
    for transcoder in [&mut alone, &mut crowded] {
        transcoder.register("A".to_string(), session(PATH, Quality::P720, 1, "UA"));
    }
    for (path, quality) in [(PATH, Quality::P720), (PATH, Quality::P1080), (OTHER, Quality::P1080)] {
        let one = alone.transcode_into("A", path, quality, 7, "UX".to_string());
        let two = crowded.transcode_into("A", path, quality, 7, "UX".to_string());
        assert_eq!(one, two);
    }
}

#[test]
fn segments_are_found_by_the_client_alone() {
    let mut transcoder: Transcoder<u32> = Transcoder::new();
    transcoder.register("C1".to_string(), session(PATH, Quality::P720, 1, "U1"));
    assert_eq!(transcoder.get_segment("C1", OTHER, Quality::P240, 12), Ok("/cache/U1/segments-12.ts".to_string()));
    assert_eq!(transcoder.get_segment("C1", PATH, Quality::P720, 100), Ok("/cache/U1/segments-100.ts".to_string()));
    assert_eq!(transcoder.get_segment("C2", PATH, Quality::P720, 0), Err(SegmentError::NoTranscode));
    assert_eq!(transcoder.get_segment("c1", PATH, Quality::P720, 0), Err(SegmentError::NoTranscode));
    assert_eq!(transcoder.get_segment("", PATH, Quality::P720, 0), Err(SegmentError::NoTranscode));
}

#[test]
fn an_audio_job_is_started_once() {
    let mut transcoder: Transcoder<u32> = Transcoder::new();
    let path = PATH.to_string();
    let dir = get_audio_path(&path, 1);
    let first = transcoder.transcode_audio(&path, 1);
    assert_eq!(first, AudioPlan { launch: Some(transcode_audio(&path, 1)), playlist: format!("{dir}/stream.m3u8") });
    let second = transcoder.transcode_audio(&path, 1);
    assert_eq!(second, AudioPlan { launch: None, playlist: format!("{dir}/stream.m3u8") });
    let third = transcoder.transcode_audio(&path, 1);
    assert_eq!(third, second);
}

#[test]
fn audio_jobs_are_keyed_by_path_and_index() {
    let mut transcoder: Transcoder<u32> = Transcoder::new();
    let path = PATH.to_string();
    let other = OTHER.to_string();
    assert!(transcoder.transcode_audio(&path, 0).launch.is_some());
    assert!(transcoder.transcode_audio(&path, 1).launch.is_some());
    assert!(transcoder.transcode_audio(&other, 0).launch.is_some());
    assert!(transcoder.transcode_audio(&path, 0).launch.is_none());
    assert!(transcoder.transcode_audio(&path, 1).launch.is_none());
    assert!(transcoder.transcode_audio(&other, 0).launch.is_none());
    assert!(transcoder.transcode_audio(&other, 1).launch.is_some());
}

#[test]
fn audio_jobs_and_video_sessions_do_not_mix() {
    let mut transcoder: Transcoder<u32> = Transcoder::new();
    let path = PATH.to_string();
    transcoder.register("C1".to_string(), session(PATH, Quality::P720, 1, "U1"));
    assert!(transcoder.transcode_audio(&path, 0).launch.is_some());
    assert_eq!(
        transcoder.transcode("C1", PATH, Quality::P720, 0),
        VideoPlan::Serve { playlist: "/cache/U1/stream.m3u8".to_string() }
    );
    transcoder.transcode_into("C1", PATH, Quality::P240, 0, "U2".to_string());
    assert!(transcoder.transcode_audio(&path, 0).launch.is_none());
}

#[test]
fn audio_segments_lie_in_the_directory_of_the_job() {
    let transcoder: Transcoder<u32> = Transcoder::new();
    let path = PATH.to_string();
    assert_eq!(transcoder.get_audio_segment(&path, 0, 0).unwrap(), "/cache/870519274636d7dd/segments-00.ts");
    assert_eq!(transcoder.get_audio_segment(&path, 1, 9).unwrap(), format!("{}/segments-09.ts", get_audio_path(&path, 1)));
    assert_eq!(transcoder.get_audio_segment(&path, 1, 250).unwrap(), format!("{}/segments-250.ts", get_audio_path(&path, 1)));
}
