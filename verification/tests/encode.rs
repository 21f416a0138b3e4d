use transcoder::encode::{
    get_transcode_audio_args, get_transcode_video_quality_args, new_session_id, parse_progress,
    transcode_audio, transcode_audio_error, transcode_command, transcode_video, video_launch,
    EncoderEvent, EncoderStatus, EncoderWatch, SEGMENT_TIME, SESSION_ID_LENGTH,
};
use transcoder::error::TranscodeError;
use transcoder::quality::Quality;

fn texts(list: &[&str]) -> Vec<String> {
    list.iter().map(|s| s.to_string()).collect()
}

#[test]
fn segment_time_is_ten_seconds() {
    assert_eq!(SEGMENT_TIME, 10);
    assert_eq!(SESSION_ID_LENGTH, 30);
}

#[test]
fn audio_args_map_the_stream_to_stereo_aac() {
    assert_eq!(
        get_transcode_audio_args(0),
        texts(&["-map", "0:a:0", "-c:a", "aac", "-ac", "2", "-b:a", "128k"])
    );
    assert_eq!(get_transcode_audio_args(12)[1], "0:a:12");
}

#[test]
fn video_args_copy_the_original() {
    assert_eq!(
        get_transcode_video_quality_args(&Quality::Original, 10),
        texts(&["-map", "0:V:0", "-c:v", "copy"])
    );
}

#[test]
fn video_args_encode_a_target() {
    assert_eq!(
        get_transcode_video_quality_args(&Quality::P720, 10),
        texts(&[
            "-map",
            "0:V:0",
            "-c:v",
            "libx264",
            "-crf",
            "21",
            "-preset",
            "veryfast",
            "-vf",
            "scale=-2:'min(720,ih)'",
            "-bufsize",
            "20000000",
            "-b:v",
            "2400000",
            "-maxrate",
            "4000000",
            "-force_key_frames",
            "expr:gte(t,n_forced*10)",
            "-strict",
            "-2",
            "-segment_time_delta",
            "0.1",
        ])
    );
}

#[test]
fn video_args_follow_quality_and_segment_time() {
    let args = get_transcode_video_quality_args(&Quality::P8k, 4);
    assert_eq!(args[9], "scale=-2:'min(4320,ih)'");
    assert_eq!(args[11], "200000000");
    assert_eq!(args[13], "28000000");
    assert_eq!(args[15], "40000000");
    assert_eq!(args[17], "expr:gte(t,n_forced*4)");
    for q in Quality::iter() {
        let args = get_transcode_video_quality_args(&q, SEGMENT_TIME);
        assert_eq!(args.len(), 22);
        assert_eq!(args[11], (q.max_bitrate() as u64 * 5).to_string());
    }
}

#[test]
fn command_wraps_the_encode_args() {
    let command = transcode_command(
        "/video/a b.mkv",
        "/cache/out".to_string(),
        texts(&["-map", "0:V:0", "-c:v", "copy"]),
        42,
    );
    assert_eq!(command.program, "ffmpeg");
    assert_eq!(command.out_dir, "/cache/out");
    assert_eq!(command.start_time, 42);
    assert_eq!(
        command.args,
        texts(&[
            "-progress",
            "pipe:1",
            "-nostats",
            "-hide_banner",
            "-loglevel",
            "warning",
            "-ss",
            "42",
            "-i",
            "/video/a b.mkv",
            "-f",
            "hls",
            "-hls_flags",
            "temp_file",
            "-hls_allow_cache",
            "1",
            "-hls_list_size",
            "0",
            "-hls_time",
            "10",
            "-map",
            "0:V:0",
            "-c:v",
            "copy",
            "-hls_segment_filename",
            "/cache/out/segments-%02d.ts",
            "/cache/out/stream.m3u8",
        ])
    );
}

#[test]
fn command_without_encode_args_keeps_its_frame() {
    let command = transcode_command("in", "out".to_string(), Vec::new(), 0);
    assert_eq!(command.args.len(), 23);
    assert_eq!(command.args[7], "0");
    assert_eq!(command.args[20], "-hls_segment_filename");
}

#[test]
fn audio_command_fills_the_directory_of_the_job() {
    let path = "/video/show/s01e01.mkv".to_string();
    let command = transcode_audio(&path, 1);
    let dir = transcoder::cache::get_audio_path(&path, 1);
    assert_eq!(command.out_dir, dir);
    assert_eq!(command.start_time, 0);
    assert_eq!(command.args[7], "0");
    assert_eq!(command.args[9], path);
    assert_eq!(command.args[20..28].to_vec(), get_transcode_audio_args(1));
    assert_eq!(command.args[29], format!("{dir}/segments-%02d.ts"));
    assert_eq!(command.args[30], format!("{dir}/stream.m3u8"));
    assert_eq!(command.args.len(), 31);
}

#[test]
fn session_ids_are_thirty_letters_and_digits() {
    for _ in 0..50 {
        let uuid = new_session_id();
        assert_eq!(uuid.len(), 30);
        assert_eq!(uuid.chars().count(), 30);
        assert!(uuid.chars().all(|c| c.is_ascii_alphanumeric()));
    }
}

#[test]
fn session_ids_are_drawn_anew() {
    let one = new_session_id();
    let two = new_session_id();
    let three = new_session_id();
    assert!(one != two || two != three);
}

#[test]
fn video_launch_fills_the_directory_of_the_session() {
    let launch = video_launch("/video/a.mkv", Quality::P480, 30, "abc".to_string());
    assert_eq!(launch.uuid, "abc");
    assert_eq!(launch.command.out_dir, "/cache/abc");
    assert_eq!(launch.command.start_time, 30);
    assert_eq!(launch.command.args[7], "30");
    assert_eq!(launch.command.args[20..42].to_vec(), get_transcode_video_quality_args(&Quality::P480, 10));
    assert_eq!(launch.command.args[43], "/cache/abc/segments-%02d.ts");
    assert_eq!(launch.command.args[44], "/cache/abc/stream.m3u8");
    assert_eq!(launch.command.args[44], transcoder::cache::get_session_playlist(&launch.uuid));
}

#[test]
fn transcode_video_draws_a_session_id() {
    let launch = transcode_video("/video/a.mkv", Quality::Original, 0);
    assert_eq!(launch.uuid.len(), 30);
    assert!(launch.uuid.chars().all(|c| c.is_ascii_alphanumeric()));
    assert_eq!(launch.command.out_dir, format!("/cache/{}", launch.uuid));
    let expected = video_launch("/video/a.mkv", Quality::Original, 0, launch.uuid.clone());
    assert_eq!(launch, expected);
}

#[test]
fn progress_reads_out_time_us_in_seconds() {
    assert_eq!(parse_progress("out_time_us=15000000"), Some(15));
    assert_eq!(parse_progress("out_time_us=15999999"), Some(15));
    assert_eq!(parse_progress("out_time_us=999999"), Some(0));
    assert_eq!(parse_progress("out_time_us=0"), Some(0));
    assert_eq!(parse_progress("out_time_us=+15000000"), Some(15));
}

#[test]
fn progress_reads_long_encodes() {
    assert_eq!(parse_progress("out_time_us=4294967295"), Some(4294));
    assert_eq!(parse_progress("out_time_us=4294967296"), Some(4294));
    assert_eq!(parse_progress("out_time_us=4300000000"), Some(4300));
    assert_eq!(parse_progress("out_time_us=86400000000"), Some(86_400));
    assert_eq!(parse_progress("out_time_us=18446744073709551615"), Some(18_446_744_073_709));
    assert_eq!(parse_progress("out_time_us=18446744073709551616"), Some(18_446_744_073_709));
    assert_eq!(parse_progress("out_time_us=99999999999999999999999999"), Some(18_446_744_073_709));
}

#[test]
fn progress_takes_a_bad_value_for_zero() {
    assert_eq!(parse_progress("out_time_us=-5000000"), Some(0));
    assert_eq!(parse_progress("out_time_us=N/A"), Some(0));
    assert_eq!(parse_progress("out_time_us="), Some(0));
    assert_eq!(parse_progress("out_time_us=+"), Some(0));
    assert_eq!(parse_progress("out_time_us=15000000=1"), Some(0));
    assert_eq!(parse_progress("out_time_us=15000000 "), Some(0));
}

#[test]
fn progress_ignores_other_lines() {
    assert_eq!(parse_progress("out_time_ms=15000000"), None);
    assert_eq!(parse_progress("out_time=00:00:15.000000"), None);
    assert_eq!(parse_progress("progress=continue"), None);
    assert_eq!(parse_progress("out_time_us"), None);
    assert_eq!(parse_progress(" out_time_us=15000000"), None);
    assert_eq!(parse_progress("=out_time_us=15000000"), None);
    assert_eq!(parse_progress(""), None);
}

#[test]
fn watch_waits_until_a_segment_and_a_half_is_encoded() {
    let mut watch = EncoderWatch::new(0);
    assert_eq!(watch, EncoderWatch { start_time: 0, ready_time: 0 });
    assert!(matches!(watch.observe(EncoderEvent::Line("frame=10".to_string())), EncoderStatus::Waiting));
    assert_eq!(watch.ready_time, 0);
    assert!(matches!(watch.observe(EncoderEvent::Line("out_time_us=14999999".to_string())), EncoderStatus::Waiting));
    assert_eq!(watch.ready_time, 14);
    assert!(matches!(watch.observe(EncoderEvent::Line("progress=continue".to_string())), EncoderStatus::Waiting));
    assert_eq!(watch.ready_time, 14);
    assert!(matches!(watch.observe(EncoderEvent::Line("out_time_us=15000000".to_string())), EncoderStatus::Ready));
    assert_eq!(watch, EncoderWatch { start_time: 0, ready_time: 15 });
}

#[test]
fn watch_counts_from_the_start_time() {
    let mut watch = EncoderWatch::new(100);
    assert!(matches!(watch.observe(EncoderEvent::Line("out_time_us=15000000".to_string())), EncoderStatus::Waiting));
    assert!(matches!(watch.observe(EncoderEvent::Line("out_time_us=114000000".to_string())), EncoderStatus::Waiting));
    assert!(matches!(watch.observe(EncoderEvent::Line("out_time_us=115000000".to_string())), EncoderStatus::Ready));
    let mut late = EncoderWatch::new(u32::MAX);
    assert!(matches!(late.observe(EncoderEvent::Line("out_time_us=4294967309999999".to_string())), EncoderStatus::Waiting));
    assert_eq!(late.ready_time, 4_294_967_309);
    assert!(matches!(late.observe(EncoderEvent::Line("out_time_us=4294967310000000".to_string())), EncoderStatus::Ready));
    assert_eq!(late.ready_time, 4_294_967_310);
}

#[test]
fn watch_is_ready_on_an_encode_of_more_than_an_hour() {
    let mut watch = EncoderWatch::new(0);
    assert!(matches!(watch.observe(EncoderEvent::Line("out_time_us=4300000000".to_string())), EncoderStatus::Ready));
    assert_eq!(watch, EncoderWatch { start_time: 0, ready_time: 4300 });
    let mut seeked = EncoderWatch::new(4290);
    assert!(matches!(seeked.observe(EncoderEvent::Line("out_time_us=4304999999".to_string())), EncoderStatus::Waiting));
    assert!(matches!(seeked.observe(EncoderEvent::Line("out_time_us=4305000000".to_string())), EncoderStatus::Ready));
}

#[test]
fn watch_is_ready_when_the_encoder_ends_well() {
    let mut watch = EncoderWatch::new(0);
    let status = watch.observe(EncoderEvent::Exited { success: true, stderr: "warnings".to_string() });
    assert!(matches!(status, EncoderStatus::Ready));
    assert_eq!(watch, EncoderWatch::new(0));
}

#[test]
fn watch_fails_with_stderr_when_the_encoder_ends_badly() {
    let mut watch = EncoderWatch::new(0);
    let status = watch.observe(EncoderEvent::Exited { success: false, stderr: "boom".to_string() });
    match status {
        EncoderStatus::Failed(TranscodeError::FFmpegError(message)) => assert_eq!(message, "boom"),
        other => panic!("unexpected status {:?}", other),
    }
}

#[test]
fn audio_error_names_the_bad_index() {
    let error = TranscodeError::FFmpegError("Stream map '0:a:99' matches no streams.\nTo ignore this, add a trailing '?' to the map.".to_string());
    match transcode_audio_error(error) {
        TranscodeError::ArgumentError(message) => assert_eq!(message, "Invalid audio index"),
        other => panic!("unexpected error {:?}", other),
    }
}

#[test]
fn audio_error_keeps_other_errors() {
    match transcode_audio_error(TranscodeError::FFmpegError("No such file".to_string())) {
        TranscodeError::FFmpegError(message) => assert_eq!(message, "No such file"),
        other => panic!("unexpected error {:?}", other),
    }
    match transcode_audio_error(TranscodeError::ArgumentError("matches no streams.".to_string())) {
        TranscodeError::ArgumentError(message) => assert_eq!(message, "matches no streams."),
        other => panic!("unexpected error {:?}", other),
    }
    let read = std::io::Error::new(std::io::ErrorKind::NotFound, "matches no streams.");
    assert!(matches!(transcode_audio_error(TranscodeError::ReadError(read)), TranscodeError::ReadError(_)));
}
