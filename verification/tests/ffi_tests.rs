use flingdlna::config::ServerConfig;
use flingdlna::ffi::{
    build_queue_requests, map_repeat_mode, FFIDeviceCapabilities, FFIDeviceType, FFIMediaFile, FFIMediaInfo,
    FFIPlayability, FFIRenderer, Playability, PlayabilityReport, QueueSyncItem,
};
use flingdlna::server::media_server::MediaServer;
use flingdlna::types::{DeviceCapabilities, DeviceIcon, MediaFile, MediaInfo, MediaType};

fn media(id: &str, title: Option<&str>) -> MediaFile {
    MediaFile {
        id: id.to_string(),
        path: format!("/m/{id}.mkv"),
        filename: format!("{id}.mkv"),
        mime_type: "video/x-matroska".to_string(),
        media_type: MediaType::Video,
        size: 42,
        duration: Some(125_900),
        title: title.map(|t| t.to_string()),
        artist: None,
        album: None,
        parent_id: "0".to_string(),
        year: Some(2020),
        resolution: Some((1920, 1080)),
        video_codec: Some("HEVC".to_string()),
        audio_codec: None,
    }
}

fn item(url: Option<&str>, media_id: Option<&str>) -> QueueSyncItem {
    QueueSyncItem {
        url: url.map(|s| s.to_string()),
        media_id: media_id.map(|s| s.to_string()),
        content_type: None,
        subtitle_url: None,
        title: None,
    }
}

#[test]
fn repeat_modes_map_to_renderer_play_modes() {
    assert_eq!(map_repeat_mode(None, false), "REPEAT_OFF");
    assert_eq!(map_repeat_mode(None, true), "REPEAT_OFF");
    assert_eq!(map_repeat_mode(Some("one"), true), "REPEAT_SINGLE");
    assert_eq!(map_repeat_mode(Some("all"), false), "REPEAT_ALL");
    assert_eq!(map_repeat_mode(Some("all"), true), "REPEAT_ALL_AND_SHUFFLE");
    assert_eq!(map_repeat_mode(Some("ALL"), true), "REPEAT_OFF");
}

#[test]
fn queue_items_become_play_requests() {
    let mut server = MediaServer::with_uuid(ServerConfig::new("S"), "1");
    server.add_file(media("abc", None));
    server.add_file(media("def", Some("Titled")));
    let server = Some(server);
    let mut given = item(None, Some("def"));
    given.content_type = Some("video/mp4".to_string());
    let items = vec![
        item(Some("http://x/a.mp4"), None),
        item(None, Some("url:http://y/b.mp4")),
        item(None, Some("abc")),
        given,
    ];
    let r = build_queue_requests(&server, "http://10.0.0.2:8200", &items).unwrap();
    assert_eq!(r.len(), 4);
    assert_eq!(r[0].url, "http://x/a.mp4");
    assert_eq!(r[0].title, None);
    assert_eq!(r[1].url, "http://y/b.mp4");
    assert_eq!(r[2].url, "http://10.0.0.2:8200/media/abc");
    assert_eq!(r[2].content_type.as_deref(), Some("video/x-matroska"));
    assert_eq!(r[2].title.as_deref(), Some("abc.mkv"));
    assert_eq!(r[3].content_type.as_deref(), Some("video/mp4"));
    assert_eq!(r[3].title.as_deref(), Some("Titled"));
}

#[test]
fn queue_errors_name_the_first_bad_item() {
    let server = Some(MediaServer::with_uuid(ServerConfig::new("S"), "1"));
    let items = vec![item(Some("http://x/a.mp4"), None), item(None, Some("zzz")), item(None, None)];
    assert_eq!(build_queue_requests(&server, "http://h", &items).unwrap_err(), "Media ID not found: zzz");
    let items = vec![item(None, None)];
    assert_eq!(build_queue_requests(&server, "http://h", &items).unwrap_err(), "Queue item missing url or mediaId");
    let items = vec![item(None, Some("abc"))];
    assert_eq!(build_queue_requests(&None, "http://h", &items).unwrap_err(), "Server not configured");
    let items = vec![item(Some("http://x/a.mp4"), Some("abc"))];
    assert_eq!(build_queue_requests(&None, "http://h", &items).unwrap()[0].url, "http://x/a.mp4");
}

#[test]
fn renderer_record_tells_chromecasts_apart() {
    let xml = "<root><device><deviceType>MediaRenderer</deviceType><friendlyName>TV</friendlyName><manufacturer>Acme</manufacturer><service><serviceType>AVTransport</serviceType><controlURL>/c</controlURL></service></device></root>";
    let mut r = flingdlna::ssdp::xml::parse_device_description(xml, "http://192.168.1.5:1400/d.xml").unwrap();
    r.icons.push(DeviceIcon {
        mime_type: "image/png".to_string(),
        width: 48,
        height: 48,
        depth: 24,
        url: "http://192.168.1.5:1400/i.png".to_string(),
    });
    let f = FFIRenderer::from_renderer(&r);
    assert_eq!(f.name, "TV");
    assert_eq!(f.device_type, FFIDeviceType::Dlna);
    assert_eq!(f.upnp_device_type.as_deref(), Some("urn:schemas-upnp-org:device:MediaRenderer:1"));
    assert_eq!(f.manufacturer.as_deref(), Some("Acme"));
    assert_eq!(f.icons.len(), 1);
    assert_eq!(f.icons[0].width, 48);
    r.location = "cast://10.0.0.9:8009".to_string();
    let c = FFIRenderer::from_renderer(&r);
    assert_eq!(c.device_type, FFIDeviceType::Chromecast);
    assert_eq!(c.upnp_device_type, None);
}

#[test]
fn media_records_default_unknown_numbers_to_zero() {
    let f = FFIMediaFile::from_media_file(&media("abc", Some("T")));
    assert_eq!(f.duration_secs, 125);
    assert_eq!((f.width, f.height, f.year), (1920, 1080, 2020));
    assert_eq!(f.video_codec.as_deref(), Some("HEVC"));
    let mut bare = media("x", None);
    bare.duration = None;
    bare.resolution = None;
    bare.year = None;
    let g = FFIMediaFile::from_media_file(&bare);
    assert_eq!((g.duration_secs, g.width, g.height, g.year), (0, 0, 0, 0));
    let info = MediaInfo {
        nr_tracks: 1,
        media_duration: Some(61_500),
        current_uri: Some("http://x".to_string()),
        play_medium: Some("NETWORK".to_string()),
        next_uri: None,
    };
    let m = FFIMediaInfo::from_media_info(&info);
    assert_eq!((m.media_duration_secs, m.has_duration), (61, true));
    let none = FFIMediaInfo::from_media_info(&MediaInfo { media_duration: None, ..info });
    assert_eq!((none.media_duration_secs, none.has_duration), (0, false));
}

#[test]
fn playability_and_capabilities_records() {
    let p = FFIPlayability::from_report(&PlayabilityReport {
        playability: Playability::Maybe,
        reason: Some("codec".to_string()),
    });
    assert_eq!(p.status, 1);
    assert_eq!(p.reason.as_deref(), Some("codec"));
    let caps = DeviceCapabilities {
        play_media: vec!["NETWORK".to_string(), "HDD".to_string()],
        rec_media: vec!["NOT_IMPLEMENTED".to_string()],
        rec_quality_modes: vec![],
    };
    let c = FFIDeviceCapabilities::from_device_capabilities(&caps);
    assert_eq!(c.play_media, caps.play_media);
    assert_eq!(c.rec_media, caps.rec_media);
    assert!(c.rec_quality_modes.is_empty());
}

#[test]
fn discovery_timeout_is_kept_between_30_and_120() {
    assert_eq!(flingdlna::ffi::discovery_timeout_secs(0), 30);
    assert_eq!(flingdlna::ffi::discovery_timeout_secs(45), 45);
    assert_eq!(flingdlna::ffi::discovery_timeout_secs(500), 120);
    assert_eq!(flingdlna::ffi::discovery_timeout_secs(u64::MAX), 120);
}
