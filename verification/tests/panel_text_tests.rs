use flingdlna::daemon::{MediaFileInfo, RendererEntry};
use flingdlna::tui::{HistoryDisplayItem, QueueDisplayItem};
use flingdlna::tui_library::LibraryEntry;
use flingdlna::tui_status::{BackgroundResult, PlayerState};
use flingdlna::tui_text::{
    file_info_lines, header_spans, history_lines, library_spans, library_title, progress_label, queue_spans,
    queue_title, renderer_lines, shown_queue, status_spans, url_popup_area,
};

fn file(name: &str, size: u64, duration: Option<u64>) -> MediaFileInfo {
    MediaFileInfo {
        path: format!("/m/{name}"),
        filename: name.to_string(),
        size,
        mime_type: "video/mp4".to_string(),
        duration_secs: duration,
    }
}

#[test]
fn header_shows_device_state_volume_and_file() {
    let mut p = PlayerState::new();
    assert_eq!(header_spans(&p), vec![" No device ", "? Unknown", "Vol:0%", "-", "Up:00:00 Streams:0"]);
    p.handle_background_result(
        BackgroundResult::Renderers(vec![RendererEntry { name: "TV".into(), location: "l".into(), manufacturer: None, model: None }]),
        0,
    );
    p.playback_state = "Playing".to_string();
    p.volume = 40;
    p.current_uri = Some("http://h/media/a-very-long-file-name-for-the-header.mp4".to_string());
    p.daemon_uptime = 3725;
    p.daemon_streams = 2;
    let h = header_spans(&p);
    assert_eq!(h[0], " TV ");
    assert_eq!(h[1], "\u{25b6} Playing");
    assert_eq!(h[3], "a-very-long-file-name-for");
    assert_eq!(h[4], "Up:01:02:05 Streams:2");
    p.muted = true;
    p.pending_operation = Some("Pausing...".to_string());
    let h = header_spans(&p);
    assert_eq!(h[1], "Pausing...");
    assert_eq!(h[2], "[MUTE]");
    assert_eq!(progress_label(65, 3600), " 01:05 / 01:00:00 ");
}

#[test]
fn renderer_lines_show_model_of_selected() {
    let r = RendererEntry { name: "TV".into(), location: "l".into(), manufacturer: Some("Acme".into()), model: Some("X1".into()) };
    assert_eq!(renderer_lines(&r, true), vec!["\u{25b8} TV", "    Acme X1"]);
    assert_eq!(renderer_lines(&r, false), vec!["  TV"]);
}

#[test]
fn library_lines_cut_names_and_format_sizes() {
    let folder = LibraryEntry::Folder { name: "A rather long folder".into(), path: "/x".into(), file_count: 3 };
    assert_eq!(library_spans(&folder, false), vec!["  ", "\u{1f4c1} ", "A rather long f...", " (3)"]);
    let f = LibraryEntry::File(file("short.mp4", 3 * 1024 * 1024 + 300_000, Some(125)));
    assert_eq!(library_spans(&f, true), vec!["\u{25b8} ".to_string(), "short.mp4".to_string(), format!(" [02:05|{:.1}M]", (3 * 1024 * 1024 + 300_000) as f64 / (1024.0 * 1024.0))]);
    for size in [0u64, 512, 1536, 2560, 1023 * 1024 + 1000, 5 * 1024 * 1024 * 1024 + 123_456_789, u64::MAX] {
        let expected = if size >= 1024 * 1024 * 1024 {
            format!("{:.1}G", size as f64 / (1024.0 * 1024.0 * 1024.0))
        } else if size >= 1024 * 1024 {
            format!("{:.1}M", size as f64 / (1024.0 * 1024.0))
        } else {
            format!("{:.0}K", size as f64 / 1024.0)
        };
        let spans = library_spans(&LibraryEntry::File(file("a-file-name-longer-than-twenty.mkv", size, None)), false);
        assert_eq!(spans[1], "a-file-name-longe...");
        assert_eq!(spans[2], format!(" [{expected}]"));
    }
    assert_eq!(library_title("/", 4), " Library (4) ");
    assert_eq!(library_title("/.../m/Movies", 2), " /.../m/Movies (2) ");
    assert_eq!(library_title("/.../media/Films", 2), " .../media/Films (2) ");
}

#[test]
fn file_panel_shows_path_size_and_type() {
    let long = file("x.mp4", 3 * 1024 * 1024 * 1024 + 5, None);
    let mut long = long;
    long.path = format!("/very/long/path/{}/x.mp4", "d".repeat(40));
    let lines = file_info_lines(Some(&long));
    assert_eq!(lines[0], format!("...{}", &long.path[long.path.len() - 42..]));
    assert_eq!(lines[1], format!("{:.2} GB", long.size as f64 / (1024.0 * 1024.0 * 1024.0)));
    assert_eq!(lines[2], "video/mp4");
    assert_eq!(file_info_lines(Some(&file("a", 2047, None)))[1], "1 KB");
    assert_eq!(file_info_lines(Some(&file("a", 1_572_864, None)))[1], "1.5 MB");
    assert_eq!(file_info_lines(None), vec![" No file selected"]);
}

#[test]
fn history_queue_and_status_texts() {
    let h = HistoryDisplayItem {
        uri: "u".into(),
        title: "A long history title".into(),
        position_secs: 30,
        duration_secs: 120,
        device: "TV".into(),
        saved_at: 1000,
    };
    assert_eq!(history_lines(&h, false, 1030, 25), vec!["  ", "A long histor...", "00:30/02:00 (25%)", "just now"]);
    assert_eq!(history_lines(&h, false, 1000 + 7200, 25)[3], "2h ago");
    assert_eq!(history_lines(&h, false, 1000 + 600, 25)[3], "10m ago");
    assert_eq!(history_lines(&h, false, 1000 + 3 * 86400, 25)[3], "3d ago");
    assert_eq!(history_lines(&h, false, 10, 25)[3], "just now");
    let q = QueueDisplayItem { index: 3, title: "Song".into(), source: "http://x".into(), is_url: true, duration: None };
    assert_eq!(queue_spans(&q, Some(3)), vec!["\u{25b6} ", " 3.", " ", "[URL] ", "Song", " ", "[--:--]"]);
    let q = QueueDisplayItem { index: 12, title: "B".into(), source: "/b".into(), is_url: false, duration: Some(61) };
    assert_eq!(queue_spans(&q, None), vec!["  ", "12.", " ", "", "B", " ", "[01:01]"]);
    assert_eq!(queue_title(2, true, "one"), " Queue (2) \u{1f500} \u{1f502} ");
    assert_eq!(queue_title(0, false, "none"), " Queue (0)   ");
    assert_eq!(status_spans(false, &Some("Paused".into()), "ok").len(), 5);
    assert_eq!(status_spans(true, &None, "ok"), vec![" ok ", " \u{2502} ", "Enter:confirm | Esc:cancel | Type to search"]);
    assert_eq!(url_popup_area(100, 40), (20, 18, 60, 3));
    assert_eq!(url_popup_area(30, 2), (2, 0, 26, 3));
    assert_eq!(url_popup_area(3, 10), (1, 3, 0, 3));
}

#[test]
fn shown_queue_follows_search() {
    let mut p = PlayerState::new();
    p.queue_items = vec![
        QueueDisplayItem { index: 0, title: "a".into(), source: "s".into(), is_url: false, duration: None },
        QueueDisplayItem { index: 1, title: "b".into(), source: "s".into(), is_url: false, duration: None },
    ];
    p.filtered_queue_indices = vec![1, 5];
    assert_eq!(shown_queue(&p, true), vec![0, 1]);
    p.search_query = "b".to_string();
    assert_eq!(shown_queue(&p, true), vec![1]);
    assert_eq!(shown_queue(&p, false), vec![0, 1]);
}
