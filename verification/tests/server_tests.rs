use flingdlna::process::CommandStdout;
use flingdlna::server::content_directory::extract_tag_content;
use flingdlna::server::didl::format_duration;
use flingdlna::server::http::parse_range_header;
use flingdlna::server::metadata::{ffprobe_available, normalize_audio_codec, normalize_video_codec};
use flingdlna::server::scanner::is_supported_media;
use flingdlna::server::watcher::is_media_file;
use std::time::Duration;

fn millis(d: Duration) -> u64 {
    d.as_millis() as u64
}

#[test]
fn test_extract_tag_content() {
    let xml = r#"<ObjectID>0</ObjectID>"#;
    assert_eq!(extract_tag_content(xml, "ObjectID"), Some("0".to_string()));
}

#[test]
fn test_format_duration() {
    assert_eq!(format_duration(millis(Duration::from_secs(0))), "00:00:00");
    assert_eq!(format_duration(millis(Duration::from_secs(61))), "00:01:01");
    assert_eq!(format_duration(millis(Duration::from_secs(3661))), "01:01:01");
}

#[test]
fn test_parse_range_header() {
    let size = 1000;

    // Standard range
    assert_eq!(parse_range_header("bytes=0-499", size), Some((0, 499)));

    // Open-ended range
    assert_eq!(parse_range_header("bytes=500-", size), Some((500, 999)));

    // Suffix range
    assert_eq!(parse_range_header("bytes=-100", size), Some((900, 999)));

    // Invalid
    assert_eq!(parse_range_header("bytes=1000-", size), None);
    assert_eq!(parse_range_header("invalid", size), None);
}

#[test]
fn test_ffprobe_check() {
    let available = ffprobe_available(Some(CommandStdout { success: true, stdout: Vec::new() }));
    println!("ffprobe available: {available}");
    assert!(available);
    assert!(!ffprobe_available(None));
    assert!(!ffprobe_available(Some(CommandStdout { success: false, stdout: Vec::new() })));
}

#[test]
fn test_codec_normalization() {
    assert_eq!(normalize_video_codec("V_MPEG4/ISO/AVC"), "H.264");
    assert_eq!(normalize_video_codec("V_MPEGH/ISO/HEVC"), "HEVC");
    assert_eq!(normalize_audio_codec("A_AAC"), "AAC");
    assert_eq!(normalize_audio_codec("A_AC3"), "AC3");
}

#[test]
fn test_is_supported_media() {
    assert!(is_supported_media("video.mp4"));
    assert!(is_supported_media("audio.mp3"));
    assert!(is_supported_media("image.jpg"));
    assert!(!is_supported_media("document.pdf"));
    assert!(!is_supported_media("no_extension"));
}

#[test]
fn test_is_media_file() {
    assert!(is_media_file("video.mp4"));
    assert!(is_media_file("audio.mp3"));
    assert!(is_media_file("image.jpg"));
    assert!(!is_media_file("document.pdf"));
    assert!(!is_media_file("no_extension"));
}
