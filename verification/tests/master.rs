use transcoder::identify::{Audio, MediaInfo, Video};
use transcoder::master::master;
use transcoder::quality::Quality;
use transcoder::state::Transcoder;

fn audio(index: u32, title: Option<&str>, language: Option<&str>) -> Audio {
    Audio {
        index,
        title: title.map(|s| s.to_string()),
        language: language.map(|s| s.to_string()),
        codec: "AAC".to_string(),
        is_default: index == 0,
        is_forced: false,
    }
}

fn info(width: u32, height: u32, bitrate: u32, audios: Vec<Audio>) -> MediaInfo {
    MediaInfo {
        sha: "sha".to_string(),
        path: "/video/show/s01e01.mkv".to_string(),
        length: 1_420_345,
        container: "Matroska".to_string(),
        video: Video {
            codec: "AVC".to_string(),
            language: None,
            quality: Quality::from_height(height),
            width,
            height,
            bitrate,
        },
        audios,
        subtitles: Vec::new(),
        fonts: Vec::new(),
        chapters: Vec::new(),
    }
}

fn variant_lines(playlist: &str) -> Vec<&str> {
    playlist.lines().filter(|l| l.starts_with("./")).collect()
}

#[test]
fn master_of_a_full_hd_file_with_one_english_audio() {
    let playlist = master(&info(1920, 1080, 5_000_000, vec![audio(0, None, Some("en"))]));
    let expected = "#EXTM3U\n\
#EXT-X-STREAM-INF:AVERAGE-BANDWIDTH=5000000,BANDWIDTH=6000000,RESOLUTION=1920x1080,AUDIO=\"audio\"\n\
./original/index.m3u8\n\
#EXT-X-STREAM-INF:AVERAGE-BANDWIDTH=400000,BANDWIDTH=700000,RESOLUTION=427x240,CODECS=\"avc1.640028\",AUDIO=\"audio\"\n\
./240p/index.m3u8\n\
#EXT-X-STREAM-INF:AVERAGE-BANDWIDTH=800000,BANDWIDTH=1400000,RESOLUTION=640x360,CODECS=\"avc1.640028\",AUDIO=\"audio\"\n\
./360p/index.m3u8\n\
#EXT-X-STREAM-INF:AVERAGE-BANDWIDTH=1200000,BANDWIDTH=2100000,RESOLUTION=853x480,CODECS=\"avc1.640028\",AUDIO=\"audio\"\n\
./480p/index.m3u8\n\
#EXT-X-STREAM-INF:AVERAGE-BANDWIDTH=2400000,BANDWIDTH=4000000,RESOLUTION=1280x720,CODECS=\"avc1.640028\",AUDIO=\"audio\"\n\
./720p/index.m3u8\n\
#EXT-X-MEDIA:TYPE=AUDIO,GROUP-ID=\"audio\",LANGUAGE=\"en\",NAME=\"en\",DEFAULT=YES,URI=\"./audio/0/index.m3u8\"\n";
    assert_eq!(playlist, expected);
    assert!(playlist.starts_with("#EXTM3U\n"));
    assert!(playlist.ends_with('\n'));
    assert!(!playlist.contains("./1080p/"));
    assert!(!playlist.contains("./1440p/"));
    assert_eq!(playlist.matches("#EXT-X-MEDIA").count(), 1);
}

#[test]
fn master_lists_only_rungs_below_the_source() {
    for height in [0u32, 1, 239, 240, 241, 360, 700, 720, 721, 1080, 2000, 2160, 4320, 4321, 100_000] {
        let playlist = master(&info(1000, height, 1000, Vec::new()));
        let listed: Vec<Quality> = Quality::iter()
            .into_iter()
            .filter(|q| playlist.contains(format!("./{}/index.m3u8\n", q.to_string()).as_str()))
            .collect();
        for q in listed.iter() {
            assert!(q.height() < height);
        }
        let expected: Vec<Quality> = Quality::iter()
            .into_iter()
            .filter(|q| q.height() < Quality::from_height(height).height())
            .collect();
        assert_eq!(listed, expected);
        assert_eq!(variant_lines(&playlist).len(), expected.len() + 1);
        assert_eq!(variant_lines(&playlist)[0], "./original/index.m3u8");
    }
}

#[test]
fn master_of_a_small_source_offers_the_original_alone() {
    let playlist = master(&info(320, 240, 300_000, Vec::new()));
    assert_eq!(
        playlist,
        "#EXTM3U\n#EXT-X-STREAM-INF:AVERAGE-BANDWIDTH=300000,BANDWIDTH=360000,RESOLUTION=320x240,AUDIO=\"audio\"\n./original/index.m3u8\n"
    );
}

#[test]
fn master_rounds_the_peak_bandwidth_down() {
    let peak = |bitrate: u32| {
        let playlist = master(&info(320, 240, bitrate, Vec::new()));
        let start = playlist.find(",BANDWIDTH=").unwrap() + 11;
        let end = playlist.find(",RESOLUTION").unwrap();
        playlist[start..end].to_string()
    };
    assert_eq!(peak(0), "0");
    assert_eq!(peak(1), "1");
    assert_eq!(peak(4), "4");
    assert_eq!(peak(5), "6");
    assert_eq!(peak(5_000_001), "6000001");
    assert_eq!(peak(3_579_139_412), "4294967294");
    assert_eq!(peak(3_579_139_413), "4294967295");
    assert_eq!(peak(3_579_139_414), "4294967296");
    assert_eq!(peak(u32::MAX), "5153960754");
}

#[test]
fn master_scales_the_width_by_the_aspect() {
    let widths = |width: u32, height: u32| -> Vec<String> {
        let playlist = master(&info(width, height, 1, Vec::new()));
        playlist
            .lines()
            .filter(|l| l.contains("CODECS"))
            .map(|l| {
                let start = l.find("RESOLUTION=").unwrap() + 11;
                let end = l.find(",CODECS").unwrap();
                l[start..end].to_string()
            })
            .collect()
    };
    assert_eq!(widths(1920, 1080), vec!["427x240", "640x360", "853x480", "1280x720"]);
    assert_eq!(widths(1440, 1080), vec!["320x240", "480x360", "640x480", "960x720"]);
    assert_eq!(widths(3, 480), vec!["2x240", "2x360"]);
    assert_eq!(widths(1, 480), vec!["1x240", "1x360"]);
    assert_eq!(widths(0, 480), vec!["0x240", "0x360"]);
    assert_eq!(widths(u32::MAX, 241), vec!["4277145854x240"]);
    assert_eq!(widths(u32::MAX, 250), vec!["4123168603x240"]);
}

#[test]
fn master_follows_the_rung_that_the_video_names() {
    let mut file = info(4_000_000_000, 2, 1, Vec::new());
    file.video.quality = Quality::P480;
    let playlist = master(&file);
    assert_eq!(variant_lines(&playlist), vec!["./original/index.m3u8", "./240p/index.m3u8", "./360p/index.m3u8"]);
    assert!(playlist.contains("RESOLUTION=480000000000x240,"));
    assert!(playlist.contains("RESOLUTION=720000000000x360,"));
    let mut flat = info(1920, 0, 1, Vec::new());
    flat.video.quality = Quality::P360;
    assert!(master(&flat).contains("RESOLUTION=0x240,"));
}

#[test]
fn master_names_every_audio() {
    let playlist = master(&info(
        320,
        240,
        1,
        vec![
            audio(0, Some("Commentary"), Some("en")),
            audio(1, Some("Main"), None),
            audio(2, None, Some("fr")),
            audio(3, None, None),
        ],
    ));
    let lines: Vec<&str> = playlist.lines().filter(|l| l.starts_with("#EXT-X-MEDIA")).collect();
    assert_eq!(
        lines,
        vec![
            "#EXT-X-MEDIA:TYPE=AUDIO,GROUP-ID=\"audio\",LANGUAGE=\"en\",NAME=\"Commentary\",DEFAULT=YES,URI=\"./audio/0/index.m3u8\"",
            "#EXT-X-MEDIA:TYPE=AUDIO,GROUP-ID=\"audio\",NAME=\"Main\",DEFAULT=YES,URI=\"./audio/1/index.m3u8\"",
            "#EXT-X-MEDIA:TYPE=AUDIO,GROUP-ID=\"audio\",LANGUAGE=\"fr\",NAME=\"fr\",DEFAULT=YES,URI=\"./audio/2/index.m3u8\"",
            "#EXT-X-MEDIA:TYPE=AUDIO,GROUP-ID=\"audio\",NAME=\"Audio 3\",DEFAULT=YES,URI=\"./audio/3/index.m3u8\"",
        ]
    );
}

#[test]
fn build_master_renders_an_identified_file_only() {
    let transcoder: Transcoder<u32> = Transcoder::new();
    let file = info(1920, 1080, 5_000_000, vec![audio(0, None, Some("en"))]);
    assert_eq!(transcoder.build_master(Some(&file)), Some(master(&file)));
    assert_eq!(transcoder.build_master(None), None);
}
