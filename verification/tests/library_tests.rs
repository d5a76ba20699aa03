use flingdlna::config::{AppConfigFile, ComboConfig, ControllerConfig, ServerConfig, TimeSpan, default_config_path};
use flingdlna::error::{Error, IoKind};
use flingdlna::server::cache::{
    cache_stats, cached_from_row, default_cache_path, needs_schema_init, number_columns, stale_paths, CachedMetadata,
};
use flingdlna::server::content_directory::{
    handle_browse, parse_browse_request, get_system_update_id_response, BrowseFlag, BrowseResponse,
};
use flingdlna::server::description::xml_escape;
use flingdlna::server::didl::{generate_container, generate_didl_lite, generate_item, generate_root_containers};
use flingdlna::server::http::{
    connection_manager_control, content_directory_control, content_range, headers_too_large, plan_media,
    soap_error_response, ControlReply, MediaPlan,
};
use flingdlna::server::metadata::{
    extract_metadata, ExtractedMetadata, MatroskaExtractor, MetadataError, MetadataRegistry, MkvInfo, MkvTrack,
    Mp4Extractor, Mp4Info, Mp4MediaType, Mp4Track, TrackKind, ContainerKind, AudioTags,
};
use flingdlna::server::scanner::{apply_cached_metadata, extract_to_cached, parent_id};
use flingdlna::server::state::ServerState;
use flingdlna::server::watcher::{convert_event, ChangeKind, WatchEvent};
use flingdlna::types::{MediaFile, MediaType, ServerInfo, TransportState};
use flingdlna::utils::{format_duration, parse_duration, duration_overflows};

fn info() -> ServerInfo {
    ServerInfo {
        friendly_name: "Test".to_string(),
        udn: "uuid:t".to_string(),
        manufacturer: "m".to_string(),
        model_name: "n".to_string(),
    }
}

fn file(id: &str, path: &str, t: MediaType, mime: &str) -> MediaFile {
    MediaFile {
        id: id.to_string(),
        path: path.to_string(),
        filename: path.rsplit('/').next().unwrap().to_string(),
        mime_type: mime.to_string(),
        media_type: t,
        size: 1000,
        duration: Some(61_000),
        title: None,
        artist: None,
        album: None,
        parent_id: "dir_1".to_string(),
        year: None,
        resolution: None,
        video_codec: None,
        audio_codec: None,
    }
}

#[test]
fn state_read_after_write() {
    let mut s = ServerState::new(info());
    assert_eq!(s.content_update_id(), 0);
    s.add_file(file("a", "/m/v/a.mp4", MediaType::Video, "video/mp4"));
    s.add_file(file("b", "/m/a/b.mp3", MediaType::Audio, "audio/mpeg"));
    assert_eq!(s.content_update_id(), 2);
    assert_eq!(s.get_file("a").unwrap().path, "/m/v/a.mp4");
    assert_eq!(s.file_count(), 2);
    assert_eq!(s.files_by_type(MediaType::Audio).len(), 1);
    assert_eq!(s.get_id_by_path("/m/a/b.mp3"), Some("b".to_string()));
    let removed = s.remove_file("a").unwrap();
    assert_eq!(removed.id, "a");
    assert!(s.get_file("a").is_none());
    assert_eq!(s.content_update_id(), 3);
    assert!(s.remove_file("a").is_none());
    assert_eq!(s.content_update_id(), 3);
    assert_eq!(s.remove_file_by_path("/m/a/b.mp3").unwrap().id, "b");
    assert_eq!(s.file_count(), 0);
}

#[test]
fn visibility_follows_folders() {
    let mut s = ServerState::new(info());
    s.add_files(vec![
        file("a", "/pub/a.mp4", MediaType::Video, "video/mp4"),
        file("b", "/tv/b.mp4", MediaType::Video, "video/mp4"),
    ]);
    assert_eq!(s.files_by_type_for_client(MediaType::Video, None).len(), 2);
    s.set_public_folders(vec!["/pub".to_string()]);
    assert_eq!(s.files_by_type_for_client(MediaType::Video, None).len(), 1);
    s.set_device_folders("10.0.0.2", vec!["/tv".to_string()]);
    assert_eq!(s.files_by_type_for_client(MediaType::Video, Some("10.0.0.2")).len(), 2);
    assert_eq!(s.files_by_type_for_client(MediaType::Video, Some("10.0.0.3")).len(), 1);
    assert!(s.get_file_for_client("b", Some("10.0.0.3")).is_none());
    assert!(s.get_file_for_client("b", Some("10.0.0.2")).is_some());
    s.set_device_folders("10.0.0.2", vec![]);
    assert!(s.get_file_for_client("b", Some("10.0.0.2")).is_none());
    s.remove_files_from_directory("/pub");
    assert_eq!(s.file_count(), 1);
}

#[test]
fn browse_root_and_types() {
    let mut s = ServerState::new(info());
    s.add_file(file("a", "/m/a.mp4", MediaType::Video, "video/mp4"));
    s.add_file(file("c", "/m/c.mkv", MediaType::Video, "video/x-matroska"));
    let body = "<s:Envelope><s:Body><u:Browse><ObjectID>video</ObjectID><BrowseFlag>BrowseDirectChildren</BrowseFlag><Filter>*</Filter><StartingIndex>1</StartingIndex><RequestedCount>5</RequestedCount><SortCriteria></SortCriteria></u:Browse></s:Body></s:Envelope>";
    let req = parse_browse_request(body).unwrap();
    assert_eq!(req.object_id, "video");
    assert_eq!(req.browse_flag, BrowseFlag::BrowseDirectChildren);
    assert_eq!(req.starting_index, 1);
    assert_eq!(req.requested_count, 5);
    let resp = handle_browse(&s, &req, "http://h:8080", None).unwrap();
    assert_eq!(resp.number_returned, 1);
    assert_eq!(resp.total_matches, 2);
    assert_eq!(resp.update_id, 2);
    assert!(resp.result.contains("<item id=\"c\""));
    assert!(resp.result.contains("http://h:8080/media/c"));
    let root = parse_browse_request("<ObjectID>0</ObjectID><BrowseFlag>BrowseMetadata</BrowseFlag>").unwrap();
    let r = handle_browse(&s, &root, "http://h", None).unwrap();
    assert_eq!(r.number_returned, 1);
    assert!(r.result.contains("childCount=\"3\""));
    let none = parse_browse_request("<ObjectID>zzz</ObjectID>").unwrap();
    let r = handle_browse(&s, &none, "http://h", None).unwrap();
    assert_eq!(r.number_returned, 0);
    let defaults = parse_browse_request("").unwrap();
    assert_eq!(defaults.object_id, "0");
    assert_eq!(defaults.filter, "*");
    assert_eq!(defaults.starting_index, 0);
    let soap = BrowseResponse { result: "<a>".to_string(), number_returned: 1, total_matches: 2, update_id: 3 }
        .to_soap_response();
    assert!(soap.contains("<Result>&lt;a&gt;</Result>"));
    assert!(soap.contains("<UpdateID>3</UpdateID>"));
    assert!(get_system_update_id_response(7).contains("<Id>7</Id>"));
}

#[test]
fn didl_elements() {
    assert_eq!(
        generate_container("video", "0", "Video & more", 3),
        "<container id=\"video\" parentID=\"0\" restricted=\"1\" childCount=\"3\">\n  <dc:title>Video &amp; more</dc:title>\n  <upnp:class>object.container</upnp:class>\n</container>"
    );
    let item = generate_item(&file("a", "/m/a.mp4", MediaType::Video, "video/mp4"), "http://h");
    assert!(item.contains("duration=\"00:01:01\""));
    assert!(item.contains("<upnp:class>object.item.videoItem</upnp:class>"));
    assert!(item.contains("size=\"1000\""));
    assert_eq!(generate_root_containers(1, 2, 3).len(), 3);
    assert_eq!(
        generate_didl_lite(&["x".to_string(), "y".to_string()]),
        "<DIDL-Lite xmlns=\"urn:schemas-upnp-org:metadata-1-0/DIDL-Lite/\" xmlns:dc=\"http://purl.org/dc/elements/1.1/\" xmlns:upnp=\"urn:schemas-upnp-org:metadata-1-0/upnp/\">\nx\ny\n</DIDL-Lite>"
    );
    assert_eq!(xml_escape("<a href='x'>\"&\"</a>"), "&lt;a href=&apos;x&apos;&gt;&quot;&amp;&quot;&lt;/a&gt;");
}

#[test]
fn control_requests() {
    let s = ServerState::new(info());
    match content_directory_control(&s, "\"urn:schemas-upnp-org:service:ContentDirectory:1#GetSystemUpdateID\"", b"", "http://h", "10.0.0.2") {
        ControlReply::Xml(x) => assert!(x.contains("<Id>0</Id>")),
        other => panic!("unexpected {:?}", other),
    }
    assert!(matches!(content_directory_control(&s, "Browse", &[0xff, 0xfe], "http://h", "1.2.3.4"), ControlReply::BadEncoding));
    assert!(matches!(content_directory_control(&s, "Browse", &vec![b'a'; 262145], "http://h", "1.2.3.4"), ControlReply::TooLarge));
    match content_directory_control(&s, "Nope", b"", "http://h", "1.2.3.4") {
        ControlReply::Xml(x) => assert_eq!(x, soap_error_response(401, "Invalid Action")),
        other => panic!("unexpected {:?}", other),
    }
    assert!(connection_manager_control("x#GetProtocolInfo").contains("http-get:*:video/mp4:*"));
    assert!(soap_error_response(401, "Invalid Action").contains("<errorCode>401</errorCode>"));
    assert_eq!(content_range(0, 499, 1000), "bytes 0-499/1000");
    assert!(!headers_too_large(&[(4, 10), (10, 100)]));
    assert!(headers_too_large(&[(4, 32765)]));
}

#[test]
fn media_requests() {
    let mut s = ServerState::new(info());
    s.add_file(file("a", "/m/a.mp4", MediaType::Video, "video/mp4"));
    assert!(matches!(plan_media(&s, "zz", None), MediaPlan::NotFound));
    match plan_media(&s, "a", Some("bytes=10-")) {
        MediaPlan::Partial { start, end, length, total, .. } => {
            assert_eq!((start, end, length, total), (10, 999, 990, 1000));
        }
        other => panic!("unexpected {:?}", other),
    }
    assert!(matches!(plan_media(&s, "a", Some("bytes=5000-")), MediaPlan::Full { .. }));
}

#[test]
fn durations_round_trip() {
    for d in [0u64, 59, 61, 3599, 3600, 3661, 86399, 360000] {
        assert_eq!(parse_duration(&format_duration(d)), Ok(d));
    }
    assert_eq!(format_duration(61), "01:01");
    assert_eq!(format_duration(3661), "01:01:01");
    assert_eq!(parse_duration("90"), Ok(90));
    assert_eq!(parse_duration("1:30"), Ok(90));
    assert_eq!(parse_duration("1:00:00"), Ok(3600));
    assert_eq!(parse_duration("a:b"), Err("invalid digit found in string".to_string()));
    assert_eq!(parse_duration("1:"), Err("cannot parse integer from empty string".to_string()));
    assert_eq!(parse_duration("1:2:3:4"), Err("Invalid duration format: 1:2:3:4".to_string()));
    assert!(duration_overflows("18446744073709551615:1"));
    assert!(!duration_overflows("1:1"));
}

#[test]
fn config_builders() {
    let c = ServerConfig::new("Box").with_port(9000).with_directory("/m").with_watch(false).with_watch_debounce_ms(5);
    assert_eq!(c.friendly_name, "Box");
    assert_eq!(c.http_port, 9000);
    assert_eq!(c.directories, vec!["/m".to_string()]);
    assert!(!c.watch_enabled);
    assert_eq!(c.watch_debounce(), 5);
    let named = ServerConfig::new_with_hostname(Some("pc"));
    assert_eq!(named.friendly_name, "FlingDLNA (pc)");
    assert_eq!(ServerConfig::new_with_hostname(None).friendly_name, "FlingDLNA (Unknown)");
    let ctl = ControllerConfig::new().with_discovery_timeout(TimeSpan { secs: 10, nanos: 5 }).with_streaming_port(7000);
    assert_eq!(ctl.discovery_timeout, TimeSpan { secs: 10, nanos: 5 });
    let combo = ComboConfig::new().with_server(c).with_controller(ctl);
    assert_eq!(combo.controller.streaming_port, 7000);
    let file = AppConfigFile::default();
    assert_eq!(file.watcher_debounce(), 250);
    assert!(file.watcher_enabled());
    let runtime = file.into_combo_config();
    assert!(runtime.server.is_none());
    assert_eq!(runtime.controller.discovery_timeout, TimeSpan::from_secs(30));
    let mut big = AppConfigFile::default();
    big.controller.discovery_timeout_secs = u64::MAX;
    assert_eq!(big.into_combo_config().controller.discovery_timeout, TimeSpan { secs: u64::MAX, nanos: 0 });
    assert_eq!(default_config_path(Some("/home/u/.config")), Some("/home/u/.config/flingdlna/config.toml".to_string()));
    assert_eq!(default_config_path(None), None);
}

#[test]
fn errors_explain_themselves() {
    let e = Error::Timeout;
    assert!(e.is_recoverable());
    assert_eq!(e.recovery_actions().len(), 3);
    assert_eq!(e.message(), "Timeout");
    assert!(Error::Io(IoKind::ConnectionReset, "x".to_string()).is_recoverable());
    assert!(!Error::Io(IoKind::NotFound, "x".to_string()).is_recoverable());
    assert!(!Error::Config("c".to_string()).is_recoverable());
    assert_eq!(Error::Config("c".to_string()).user_friendly_message(), "Ошибка конфигурации.");
    assert_eq!(Error::Network("n".to_string()).message(), "Network error: n");
}

#[test]
fn transport_states() {
    assert_eq!(TransportState::from_str("playing"), TransportState::Playing);
    assert_eq!(TransportState::from_str("PAUSED_PLAYBACK"), TransportState::Paused);
    assert_eq!(TransportState::from_str("what"), TransportState::Unknown);
    assert_eq!(MediaType::from_mime("audio/flac"), Some(MediaType::Audio));
    assert_eq!(MediaType::from_mime("text/plain"), None);
}

#[test]
fn media_file_from_path() {
    let f = MediaFile::from_path("/m/Movie.MP4", "dir_1", 10, None).unwrap();
    assert_eq!(f.filename, "Movie.MP4");
    assert_eq!(f.mime_type, "video/mp4");
    assert_eq!(f.media_type, MediaType::Video);
    assert_eq!(f.display_title(), "Movie.MP4");
    assert!(MediaFile::from_path("/m/notes.txt", "dir_1", 10, None).is_none());
    let g = MediaFile::from_path("/m/Movie.MP4", "dir_1", 10, None).unwrap();
    assert_eq!(f.id, g.id);
}

#[test]
fn cache_rows_read_back() {
    let m = CachedMetadata {
        duration: Some(120_000),
        width: Some(1920),
        height: Some(1080),
        video_codec: Some("H.264".to_string()),
        audio_codec: Some("AAC".to_string()),
        title: Some("Test Video".to_string()),
        artist: None,
        album: None,
        year: Some(2024),
    };
    let n = number_columns(&m);
    let back = cached_from_row(n, m.video_codec.clone(), m.audio_codec.clone(), m.title.clone(), None, None);
    assert_eq!(back.duration, Some(120_000));
    assert_eq!(back.width, Some(1920));
    assert_eq!(back.year, Some(2024));
    assert_eq!(back.video_codec.as_deref(), Some("H.264"));
    assert!(needs_schema_init(None));
    assert!(needs_schema_init(Some(2)));
    assert!(!needs_schema_init(Some(1)));
    assert_eq!(cache_stats(3).entries, 3);
    assert_eq!(
        stale_paths(&vec!["/a".to_string(), "/b".to_string()], &vec!["/b".to_string()]),
        vec!["/a".to_string()]
    );
    assert_eq!(default_cache_path(Some("/home/u/.cache")), "/home/u/.cache/com.flingdlna/metadata.db");
    assert_eq!(default_cache_path(None), "./com.flingdlna/metadata.db");
    let mut f = file("a", "/m/a.mp4", MediaType::Video, "video/mp4");
    apply_cached_metadata(&mut f, &m);
    assert_eq!(f.resolution, Some((1920, 1080)));
    assert_eq!(f.title.as_deref(), Some("Test Video"));
    let c = extract_to_cached(&f);
    assert_eq!(c.width, Some(1920));
    assert_eq!(c.duration, Some(120_000));
}

#[test]
fn scanner_parent_ids() {
    let a = parent_id("/m/x/a.mp4");
    let b = parent_id("/m/x/b.mp4");
    assert_eq!(a, b);
    assert!(a.starts_with("dir_"));
    assert_eq!(parent_id("/"), "0");
}

#[test]
fn watch_events() {
    let paths = vec!["/m/a.mp4".to_string(), "/m/notes.txt".to_string()];
    let created = convert_event(ChangeKind::Create, &paths);
    assert_eq!(created.len(), 1);
    assert!(matches!(&created[0], WatchEvent::Created(p) if p == "/m/a.mp4"));
    assert_eq!(convert_event(ChangeKind::Remove, &paths).len(), 2);
    assert!(matches!(&convert_event(ChangeKind::Rename, &paths)[0], WatchEvent::Renamed(a, b) if a == "/m/a.mp4" && b == "/m/notes.txt"));
    assert!(convert_event(ChangeKind::Other, &paths).is_empty());
}

#[test]
fn metadata_extraction() {
    let mkv = MkvInfo {
        duration: Some(5000),
        title: Some("T".to_string()),
        tracks: vec![
            MkvTrack { kind: TrackKind::Audio, codec_id: "A_DTS".to_string(), pixels: None },
            MkvTrack { kind: TrackKind::Video, codec_id: "V_MS/VFW/FOURCC/XVID".to_string(), pixels: Some((640, 480)) },
        ],
    };
    let m = MatroskaExtractor.extract(&mkv).unwrap();
    assert_eq!(m.video_codec.as_deref(), Some("XVID"));
    assert_eq!(m.audio_codec.as_deref(), Some("DTS"));
    assert_eq!(m.resolution, Some((640, 480)));
    let mp4 = Mp4Info {
        duration: 7000,
        tracks: vec![Mp4Track { kind: Ok(TrackKind::Video), width: 1280, height: 720, media_type: Mp4MediaType::H265 }],
    };
    let n = Mp4Extractor.extract(&mp4).unwrap();
    assert_eq!(n.video_codec.as_deref(), Some("HEVC"));
    assert_eq!(n.audio_codec, None);
    let bad = Mp4Info { duration: 1, tracks: vec![Mp4Track { kind: Err("bad".to_string()), width: 0, height: 0, media_type: Mp4MediaType::Other }] };
    assert!(matches!(Mp4Extractor.extract(&bad), Err(MetadataError::ParseError(m)) if m == "bad"));
    let reg = MetadataRegistry::new();
    assert!(matches!(reg.extract("/m/a.MKV"), Ok(ContainerKind::Matroska)));
    assert!(matches!(reg.extract("/m/a.mov"), Ok(ContainerKind::Mp4)));
    assert!(matches!(reg.extract("/m/a.avi"), Err(MetadataError::UnsupportedFormat)));
    let mut f = file("a", "/m/a.mp3", MediaType::Audio, "audio/mpeg");
    extract_metadata(&mut f, ExtractedMetadata::Audio(Some(AudioTags {
        duration: 0,
        title: Some("Song".to_string()),
        artist: Some("Band".to_string()),
        album: None,
        year: Some(1999),
    })));
    assert_eq!(f.duration, Some(61_000));
    assert_eq!(f.title.as_deref(), Some("Song"));
    assert_eq!(f.year, Some(1999));
    let mut v = file("v", "/m/v.avi", MediaType::Video, "video/avi");
    extract_metadata(&mut v, ExtractedMetadata::Video(Err(MetadataError::UnsupportedFormat), Some(9000)));
    assert_eq!(v.duration, Some(9000));
}
