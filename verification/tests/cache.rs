use std::collections::hash_map::DefaultHasher;
use std::hash::{Hash, Hasher};
use transcoder::cache::{
    get_audio_path, get_audio_playlist, get_cache_path, get_cache_path_from_uuid,
    get_session_playlist, get_session_segment, hash_audio, hash_text_pair, TranscodeInfo,
};
use transcoder::quality::Quality;

fn std_audio_key(path: &String, audio: u32) -> u64 {
    let mut hasher = DefaultHasher::new();
    path.hash(&mut hasher);
    audio.hash(&mut hasher);
    hasher.finish()
}

#[test]
fn audio_key_is_the_standard_hash_of_path_and_index() {
    for (path, audio) in [("/video/show/s01e01.mkv", 0u32), ("/video/show/s01e01.mkv", 1), ("", 0), ("/vidéo/ü.mkv", 7)] {
        let path = path.to_string();
        assert_eq!(hash_audio(&path, audio), std_audio_key(&path, audio));
    }
}

#[test]
fn audio_key_has_fixed_values() {
    assert_eq!(hash_audio("/video/show/s01e01.mkv", 0), 0x870519274636d7dd);
    assert_eq!(hash_audio("/video/show/s01e01.mkv", 1), 0x84e7e396dd5e73b8);
    assert_eq!(hash_audio("", 0), 0x5ac398e5bae4aeec);
}

#[test]
fn text_pair_key_is_the_standard_hash_of_two_texts() {
    let mut hasher = DefaultHasher::new();
    "/video/show/s01e01.mkv".to_string().hash(&mut hasher);
    "UTC 2023-01-02 03:04:05".to_string().hash(&mut hasher);
    assert_eq!(hash_text_pair("/video/show/s01e01.mkv", "UTC 2023-01-02 03:04:05"), hasher.finish());
    assert_eq!(hash_text_pair("/video/show/s01e01.mkv", "UTC 2023-01-02 03:04:05"), 0x2f6f341dadcfc8ad);
}

#[test]
fn audio_path_is_the_key_in_hex_under_cache() {
    let path = "/video/show/s01e01.mkv".to_string();
    assert_eq!(get_audio_path(&path, 0), "/cache/870519274636d7dd");
    assert_eq!(get_audio_path(&path, 0), format!("/cache/{:x}", std_audio_key(&path, 0)));
    assert_eq!(get_audio_path(&path, 1), "/cache/84e7e396dd5e73b8");
    assert_eq!(get_audio_playlist(&path, 0), "/cache/870519274636d7dd/stream.m3u8");
}

#[test]
fn audio_path_depends_on_path_and_index() {
    let one = "/video/a.mkv".to_string();
    let two = "/video/b.mkv".to_string();
    assert_eq!(get_audio_path(&one, 0), get_audio_path(&one, 0));
    assert_ne!(get_audio_path(&one, 0), get_audio_path(&one, 1));
    assert_ne!(get_audio_path(&one, 0), get_audio_path(&two, 0));
}

#[test]
fn session_paths_lie_under_the_uuid() {
    let uuid = "abcdefghijklmnopqrstuvwxyz0123".to_string();
    assert_eq!(get_cache_path_from_uuid(&uuid), "/cache/abcdefghijklmnopqrstuvwxyz0123/");
    assert_eq!(get_session_playlist(&uuid), "/cache/abcdefghijklmnopqrstuvwxyz0123/stream.m3u8");
    assert_eq!(get_session_segment(&uuid, 0), "/cache/abcdefghijklmnopqrstuvwxyz0123/segments-00.ts");
    assert_eq!(get_session_segment(&uuid, 7), "/cache/abcdefghijklmnopqrstuvwxyz0123/segments-07.ts");
    assert_eq!(get_session_segment(&uuid, 42), "/cache/abcdefghijklmnopqrstuvwxyz0123/segments-42.ts");
    assert_eq!(get_session_segment(&uuid, 123), "/cache/abcdefghijklmnopqrstuvwxyz0123/segments-123.ts");
}

#[test]
fn cache_path_of_a_session_is_that_of_its_uuid() {
    let info = TranscodeInfo { show: ("/video/a.mkv".to_string(), Quality::P720), job: 7u32, uuid: "U1".to_string() };
    assert_eq!(get_cache_path(&info), "/cache/U1/");
    assert_eq!(get_cache_path(&info), get_cache_path_from_uuid(&info.uuid));
}
