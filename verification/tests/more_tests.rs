use flingdlna::cli::{command_route, Commands, Route};
use flingdlna::config::ServerConfig;
use flingdlna::daemon::{
    daemon_request, is_switch_on, response_data_text, size_mb_text, DaemonCommand, MediaFileInfo, Notification, PositionEntry,
    QueueEntry, RendererEntry, ResponseData,
};
use flingdlna::ffi::{FFISessionEvent, FFISessionEventType, SessionEvent, playability_status, Playability};
use flingdlna::net::ip::{ipv6_to_string, parse_ipv4};
use flingdlna::net::selection::{
    best_local_ipv4, best_local_ipv4_unix, collect_ipv4_interfaces, format_flags, is_preferred_interface,
    local_ipv4_broadcasts_unix, local_ipv4_candidates, local_ipv4_candidates_unix, score_interface, InterfaceFlags,
    RawInterface,
};
use flingdlna::net::ip::IpAddress;
use flingdlna::server::media_server::{handle_watch_event, MediaServer, WatcherStep};
use flingdlna::server::state::ServerState;
use flingdlna::server::watcher::WatchEvent;
use flingdlna::tui::{clamp_queue_selection, interpolated_position, select_next, select_prev, update_search_filter, QueueDisplayItem};
use flingdlna::types::{MediaFile, MediaType, ServerInfo};

fn media(id: &str, path: &str) -> MediaFile {
    MediaFile {
        id: id.to_string(),
        path: path.to_string(),
        filename: "f".to_string(),
        mime_type: "video/mp4".to_string(),
        media_type: MediaType::Video,
        size: 1,
        duration: None,
        title: None,
        artist: None,
        album: None,
        parent_id: "0".to_string(),
        year: None,
        resolution: None,
        video_codec: None,
        audio_codec: None,
    }
}

#[test]
fn media_server_directories() {
    let mut s = MediaServer::with_uuid(ServerConfig::new("S"), "1234");
    assert_eq!(s.udn(), "uuid:1234");
    assert!(s.watch_enabled());
    match s.add_directory("/m") {
        Some(WatcherStep::Start(d)) => assert_eq!(d, vec!["/m".to_string()]),
        other => panic!("unexpected {:?}", other),
    }
    assert!(s.add_directory("/m/").is_none());
    assert!(matches!(s.add_directory("/n"), Some(WatcherStep::Watch(p)) if p == "/n"));
    assert_eq!(s.add_scanned(vec![media("a", "/m/a.mp4"), media("b", "/n/b.mp4")]), 2);
    assert_eq!(s.files().len(), 2);
    let steps = s.remove_directory("/m");
    assert!(matches!(&steps[0], WatcherStep::Unwatch(p) if p == "/m"));
    assert_eq!(s.files().len(), 1);
    assert_eq!(s.directories(), vec!["/n".to_string()]);
    let steps = s.remove_directory("/n");
    assert!(matches!(steps.last(), Some(WatcherStep::Stop)));
    assert!(matches!(s.set_directories(vec!["/a".to_string(), "/a".to_string(), "/b".to_string()]), WatcherStep::Nothing));
    assert_eq!(s.directories(), vec!["/a".to_string(), "/b".to_string()]);
    assert!(matches!(s.directories_scanned(), WatcherStep::Start(_)));
    assert!(matches!(s.set_watch_enabled(false), WatcherStep::Stop));
    assert!(matches!(s.set_watch_enabled(false), WatcherStep::Nothing));
}

#[test]
fn watch_events_update_the_library() {
    let info = ServerInfo { friendly_name: "S".into(), udn: "u".into(), manufacturer: "m".into(), model_name: "n".into() };
    let mut st = ServerState::new(info);
    handle_watch_event(&mut st, &WatchEvent::Created("/m/a.mp4".into()), Some(media("a", "/m/a.mp4")));
    assert!(st.get_file("a").is_some());
    handle_watch_event(&mut st, &WatchEvent::Renamed("/m/a.mp4".into(), "/m/b.mp4".into()), Some(media("b", "/m/b.mp4")));
    assert!(st.get_file("a").is_none());
    assert!(st.get_file("b").is_some());
    handle_watch_event(&mut st, &WatchEvent::Deleted("/m/b.mp4".into()), None);
    assert_eq!(st.file_count(), 0);
}

#[test]
fn tui_lists() {
    assert_eq!(select_next(None, 3), Some(0));
    assert_eq!(select_next(Some(2), 3), Some(0));
    assert_eq!(select_prev(Some(0), 3), Some(2));
    assert_eq!(select_prev(select_next(Some(1), 3), 3), Some(1));
    assert_eq!(select_next(Some(1), 0), Some(1));
    assert_eq!(clamp_queue_selection(Some(5), 3), Some(2));
    assert_eq!(clamp_queue_selection(Some(1), 0), None);
    let items = vec![
        QueueDisplayItem { index: 0, title: "Alpha Song".into(), source: "s".into(), is_url: false, duration: None },
        QueueDisplayItem { index: 1, title: "beta".into(), source: "s".into(), is_url: true, duration: Some(3) },
    ];
    assert_eq!(update_search_filter(&items, "ALPHA"), vec![0]);
    assert_eq!(update_search_filter(&items, ""), vec![0, 1]);
    assert_eq!(interpolated_position("Playing", 10, 100, Some(5)), 15);
    assert_eq!(interpolated_position("Playing", 98, 100, Some(5)), 100);
    assert_eq!(interpolated_position("Paused", 10, 100, Some(5)), 10);
}

#[test]
fn commands_are_routed() {
    assert_eq!(command_route(&Commands::Tui, false), Route::DaemonControl);
    assert_eq!(command_route(&Commands::ListMedia, false), Route::NeedsDaemon);
    assert_eq!(command_route(&Commands::ListMedia, true), Route::ViaDaemon);
    assert_eq!(command_route(&Commands::List { timeout: 3 }, false), Route::Direct);
    assert!(matches!(
        daemon_request(Commands::Seek { position: "1:30".into(), device: "tv".into() }),
        Ok(DaemonCommand::Seek { position_secs: 90, .. })
    ));
    assert!(matches!(
        daemon_request(Commands::Mute { state: Some("ON".into()), device: "tv".into() }),
        Ok(DaemonCommand::Mute { mute: Some(true), .. })
    ));
    assert!(matches!(daemon_request(Commands::AutoRefresh { state: None }), Ok(DaemonCommand::GetAutoRefresh)));
    assert!(daemon_request(Commands::Seek { position: "x:y".into(), device: "tv".into() }).is_err());
    assert!(is_switch_on("1") && is_switch_on("On") && !is_switch_on("off"));
}

#[test]
fn daemon_answers_are_shown() {
    assert_eq!(response_data_text(&None), "OK\n");
    assert_eq!(response_data_text(&Some(ResponseData::Pong)), "Pong!\n");
    assert_eq!(
        response_data_text(&Some(ResponseData::Volume { volume: 40, muted: true })),
        "Volume: 40%\nMuted: yes\n"
    );
    let r = response_data_text(&Some(ResponseData::Renderers {
        renderers: vec![RendererEntry { name: "TV".into(), location: "http://x".into(), manufacturer: Some("Acme".into()), model: None }],
    }));
    assert_eq!(r, "Found 1 renderer(s):\n\n  TV\n    Location: http://x\n    Manufacturer: Acme\n\n");
    let q = response_data_text(&Some(ResponseData::Queue {
        items: vec![
            QueueEntry { index: 0, title: "A".into(), source: "http://x/a".into(), is_url: true, duration_secs: Some(61) },
            QueueEntry { index: 12, title: "B".into(), source: "/m/b.mp4".into(), is_url: false, duration_secs: None },
        ],
        current_index: Some(0),
        shuffle: false,
        repeat: "all".into(),
    }));
    assert_eq!(q, "Queue (2 items):\n  Shuffle: off, Repeat: all\n\n>  0. A [01:01]\n  12. B [--:--]\n");
    let p = response_data_text(&Some(ResponseData::Positions {
        positions: vec![PositionEntry { uri: "u".repeat(60), position_secs: 5, duration_secs: 3600, device: "tv".into(), saved_at: 0 }],
    }));
    assert!(p.contains(&format!("  00:05 / 01:00:00 - {}\n", "u".repeat(50))));
    let m = response_data_text(&Some(ResponseData::MediaFiles {
        files: vec![MediaFileInfo { filename: "a.mp4".into(), size: 1_572_864, path: "/m/a.mp4".into(), mime_type: "video/mp4".into(), duration_secs: None }],
    }));
    assert_eq!(m, "Media library (1 files):\n\n  a.mp4 (1.5 MB)\n    Path: /m/a.mp4\n    Type: video/mp4\n\n");
    let e = response_data_text(&Some(ResponseData::Events {
        events: vec![Notification::MuteChanged { device: "tv".into(), muted: false }],
    }));
    assert_eq!(e, "Events (1):\n\n  [tv] Mute: off\n");
}

#[test]
fn session_events_for_c() {
    let e = FFISessionEvent::from_session_event(&SessionEvent::UriChanged { uri: "http://x".into() }, "dev");
    assert_eq!(e.event_type, FFISessionEventType::SessUriChanged);
    assert_eq!(e.event_type.code(), 3);
    assert_eq!(e.uri.as_deref(), Some("http://x"));
    assert_eq!(e.state, None);
    assert_eq!(e.device_id, "dev");
    let v = FFISessionEvent::from_session_event(&SessionEvent::VolumeChanged { volume: 7 }, "dev");
    assert_eq!(v.volume, 7);
    assert_eq!(playability_status(Playability::Maybe), 1);
}

#[test]
fn addresses() {
    assert_eq!(parse_ipv4("192.168.1.5"), Some([192, 168, 1, 5]));
    assert_eq!(parse_ipv4("192.168.01.5"), None);
    assert_eq!(parse_ipv4("256.1.1.1"), None);
    assert_eq!(parse_ipv4("1.2.3"), None);
    assert_eq!(ipv6_to_string([0, 0, 0, 0, 0, 0, 0, 1]), "::1");
    assert_eq!(ipv6_to_string([0x2001, 0xdb8, 0, 0, 1, 0, 0, 1]), "2001:db8::1:0:0:1");
    assert_eq!(ipv6_to_string([0, 0, 0, 0, 0, 0xffff, 0xc0a8, 0x0101]), "::ffff:192.168.1.1");
    assert_eq!(ipv6_to_string([1, 2, 3, 4, 5, 6, 7, 8]), "1:2:3:4:5:6:7:8");
}

fn iface(name: &str, ip: [u8; 4], up: bool) -> RawInterface {
    RawInterface {
        name: name.into(),
        flags: InterfaceFlags { up, running: true, loopback: false, point_to_point: false, multicast: true, broadcast: true },
        ifindex: 3,
        ipv4: Some(ip),
        netmask: Some([255, 255, 255, 0]),
        dstaddr: None,
    }
}

#[test]
fn interfaces_are_ranked() {
    assert!(is_preferred_interface("en0"));
    assert!(!is_preferred_interface("utun3"));
    assert_eq!(score_interface("en0", [192, 168, 1, 2]), 3000 + 1100 + 5);
    assert_eq!(score_interface("docker0", [172, 17, 0, 1]), 3000 + 3);
    let table = vec![
        iface("docker0", [172, 17, 0, 1], true),
        iface("eth0", [10, 0, 0, 5], true),
        iface("en0", [192, 168, 1, 2], true),
        iface("down0", [192, 168, 9, 9], false),
    ];
    let es = collect_ipv4_interfaces(&table);
    assert_eq!(es.len(), 3);
    assert_eq!(local_ipv4_candidates_unix(&es), vec![[192, 168, 1, 2], [10, 0, 0, 5], [172, 17, 0, 1]]);
    assert_eq!(best_local_ipv4_unix(&es), Some([192, 168, 1, 2]));
    let b = local_ipv4_broadcasts_unix(&es);
    assert_eq!(b[0], ([192, 168, 1, 2], [192, 168, 1, 255]));
    assert_eq!(format_flags(table[0].flags), "UP|RUNNING|MULTICAST|BROADCAST");
    assert_eq!(best_local_ipv4(Some(" 10.1.2.3 "), None, Err("x".into())).unwrap(), [10, 1, 2, 3]);
    assert!(best_local_ipv4(Some("127.0.0.1"), None, Err("x".into())).is_err());
    assert_eq!(best_local_ipv4(None, None, Ok(IpAddress::V4([10, 9, 9, 9]))).unwrap(), [10, 9, 9, 9]);
    assert_eq!(
        local_ipv4_candidates(Some("10.0.0.5"), vec![[192, 168, 1, 2], [10, 0, 0, 5]], None),
        vec![[10, 0, 0, 5], [192, 168, 1, 2]]
    );
    assert_eq!(local_ipv4_candidates(None, vec![], Some([1, 2, 3, 4])), vec![[1, 2, 3, 4]]);
}

#[test]
fn arp_macs_parse_back() {
    let output = "? (10.0.0.7) at 0:1b:2c:3d:4e:5f on en0 ifscope [ethernet]\n10.0.0.8 ether aa-bb-cc-dd-ee-01 C eth0";
    let mac = flingdlna::wol::parse_arp_output(output, "10.0.0.8").unwrap();
    assert_eq!(mac, "AA:BB:CC:DD:EE:01");
    assert_eq!(flingdlna::wol::parse_mac_address(&mac).unwrap(), [0xAA, 0xBB, 0xCC, 0xDD, 0xEE, 0x01]);
    assert_eq!(flingdlna::wol::parse_arp_output(output, "10.0.0.9"), None);
    match flingdlna::wol::parse_mac_address("AA:BB") {
        Err(flingdlna::error::Error::Config(m)) => {
            assert_eq!(m, "Invalid MAC address 'AA:BB': expected 12 hex digits, got 4")
        }
        other => panic!("unexpected {:?}", other),
    }
}

#[test]
fn renderers_are_found_by_name_or_host() {
    let xml = "<root><device><deviceType>MediaRenderer</deviceType><friendlyName>Kitchen Speaker</friendlyName><service><serviceType>AVTransport</serviceType><controlURL>/c</controlURL></service></device></root>";
    let r = flingdlna::ssdp::xml::parse_device_description(xml, "http://192.168.7.9:1400/d.xml").unwrap();
    assert_eq!(r.host().as_deref(), Some("192.168.7.9"));
    assert!(r.matches("kitchen"));
    assert!(r.matches("7.9"));
    assert!(!r.matches("bedroom"));
    assert_eq!(r.display_text(), "Kitchen Speaker (192.168.7.9)");
    let copy = r.clone();
    assert_eq!(copy.friendly_name, r.friendly_name);
}

#[test]
fn sizes_in_megabytes_round_like_doubles() {
    assert_eq!(size_mb_text(0), "0.0");
    assert_eq!(size_mb_text(1_572_864), "1.5");
    assert_eq!(size_mb_text(1_048_575), "1.0");
    assert_eq!(size_mb_text(99_999), "0.1");
    assert_eq!(size_mb_text(52_428), "0.0");
    assert_eq!(size_mb_text(52_429), "0.1");
    assert_eq!(size_mb_text(u64::MAX), format!("{:.1}", u64::MAX as f64 / 1024.0 / 1024.0));
    assert_eq!(size_mb_text((1u64 << 53) + 1), format!("{:.1}", ((1u64 << 53) + 1) as f64 / 1024.0 / 1024.0));
    for n in [1_310_720u64, 1_835_008, 123_456_789, 987_654_321_987, 5_000_000_000_000_000_003, (1u64 << 60) + 12_345] {
        assert_eq!(size_mb_text(n), format!("{:.1}", n as f64 / 1024.0 / 1024.0));
    }
}

#[test]
fn list_command_text() {
    assert_eq!(flingdlna::cli::renderer_list_text(&vec![]), "No renderers found.\n");
    let xml = "<root><device><deviceType>MediaRenderer</deviceType><friendlyName>TV</friendlyName><manufacturer>Acme</manufacturer><service><serviceType>AVTransport</serviceType><controlURL>/c</controlURL></service></device></root>";
    let r = flingdlna::ssdp::xml::parse_device_description(xml, "http://10.0.0.5:1400/d.xml").unwrap();
    assert_eq!(
        flingdlna::cli::renderer_list_text(&vec![r]),
        "\nFound 1 renderer(s):\n\n  TV \n    Location: http://10.0.0.5:1400/d.xml\n    Manufacturer: Acme\n\n"
    );
}
