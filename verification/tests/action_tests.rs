use flingdlna::daemon::{DaemonCommand, MediaFileInfo, Notification, PositionEntry, QueueEntry, RendererEntry, Response, ResponseData};
use flingdlna::tui::Action;
use flingdlna::tui_actions::{history_items, last_uri_piece, on_reply, process_action, refresh_media_files, status_update_of, ReplyRule, Step, Task};
use flingdlna::tui_library::LibraryState;
use flingdlna::tui_status::{BackgroundResult, PlayerState};

fn renderer(name: &str) -> RendererEntry {
    RendererEntry { name: name.to_string(), location: format!("http://{name}/d.xml"), manufacturer: None, model: None }
}

fn player() -> PlayerState {
    let mut p = PlayerState::new();
    p.handle_background_result(BackgroundResult::Renderers(vec![renderer("TV")]), 0);
    p
}

fn ok(data: Option<ResponseData>) -> Result<Response, String> {
    Ok(Response::Success { data })
}

fn sent(tasks: &[Task]) -> Vec<String> {
    tasks
        .iter()
        .map(|t| match t {
            Task::Send(c, _) => format!("{c:?}"),
            Task::RefreshStatus(d) => format!("status {d}"),
        })
        .collect()
}

fn success_text(s: &Step) -> Option<&str> {
    match s {
        Step::Report(BackgroundResult::OperationSuccess(m)) => Some(m.as_str()),
        _ => None,
    }
}

fn error_text(s: &Step) -> Option<&str> {
    match s {
        Step::Report(BackgroundResult::OperationError(m)) => Some(m.as_str()),
        _ => None,
    }
}

#[test]
fn uri_pieces_and_history() {
    assert_eq!(last_uri_piece("http://h/media/a.mp4"), "a.mp4");
    assert_eq!(last_uri_piece("plain"), "plain");
    assert_eq!(last_uri_piece("ends/"), "");
    let items = history_items(vec![PositionEntry {
        uri: "http://h/x/Movie.mkv".to_string(),
        position_secs: 30,
        duration_secs: 90,
        device: "TV".to_string(),
        saved_at: 7,
    }]);
    assert_eq!(items.len(), 1);
    assert_eq!(items[0].title, "Movie.mkv");
    assert_eq!(items[0].saved_at, 7);
}

#[test]
fn replies_become_results() {
    let s = on_reply(ReplyRule::Done("Paused".to_string()), ok(None));
    assert_eq!(success_text(&s), Some("Paused"));
    let s = on_reply(ReplyRule::Done("Paused".to_string()), Ok(Response::Failure { message: "busy".to_string() }));
    assert_eq!(error_text(&s), Some("busy"));
    let s = on_reply(ReplyRule::Done("Paused".to_string()), Err("connection refused".to_string()));
    assert_eq!(error_text(&s), Some("connection refused"));
    let s = on_reply(ReplyRule::Volume("Vol +".to_string()), ok(Some(ResponseData::Volume { volume: 35, muted: false })));
    assert_eq!(success_text(&s), Some("Vol 35%"));
    let s = on_reply(ReplyRule::Volume("Vol +".to_string()), ok(None));
    assert_eq!(success_text(&s), Some("Vol +"));
    let s = on_reply(ReplyRule::MediaDir("/m".to_string()), ok(Some(ResponseData::FileCount { count: 12 })));
    assert_eq!(success_text(&s), Some("Set dir: /m (12 files)"));
    let s = on_reply(ReplyRule::MediaDir("/m".to_string()), ok(None));
    assert_eq!(success_text(&s), Some("Set dir: /m"));
    let s = on_reply(ReplyRule::Discovery, ok(None));
    assert!(matches!(s, Step::Report(BackgroundResult::DiscoveryError(ref m)) if m == "Unknown error"));
    let s = on_reply(ReplyRule::Discovery, ok(Some(ResponseData::Renderers { renderers: vec![renderer("A")] })));
    assert!(matches!(s, Step::Report(BackgroundResult::Renderers(ref r)) if r.len() == 1));
    let s = on_reply(ReplyRule::Events, ok(Some(ResponseData::Events { events: vec![] })));
    assert!(matches!(s, Step::Nothing));
    let s = on_reply(
        ReplyRule::Events,
        ok(Some(ResponseData::Events { events: vec![Notification::MuteChanged { device: "TV".to_string(), muted: true }] })),
    );
    assert!(matches!(s, Step::Report(BackgroundResult::EventsReceived(_))));
    let s = on_reply(ReplyRule::Subscribe("TV".to_string()), Err("x".to_string()));
    assert!(matches!(s, Step::Report(BackgroundResult::SubscriptionResult { ref device, success: false }) if device == "TV"));
    let s = on_reply(ReplyRule::MediaCount, ok(Some(ResponseData::MediaFiles { files: vec![] })));
    assert_eq!(success_text(&s), Some("Media library: 0 files"));
    let s = on_reply(ReplyRule::AutoRefresh(true), ok(None));
    assert!(matches!(s, Step::Report(BackgroundResult::AutoRefreshChanged(true))));
    let s = on_reply(ReplyRule::AutoRefresh(true), ok(Some(ResponseData::AutoRefresh { enabled: false })));
    assert!(matches!(s, Step::Report(BackgroundResult::AutoRefreshChanged(false))));
    assert!(matches!(on_reply(ReplyRule::History, Err("x".to_string())), Step::Nothing));
    assert!(matches!(on_reply(ReplyRule::Ignore, ok(None)), Step::Nothing));
}

#[test]
fn queue_changes_list_the_queue_next() {
    let rule = ReplyRule::ThenListQueue { device: "TV".to_string(), message: "Added: a.mp4".to_string() };
    let next = on_reply(rule, ok(None));
    let Step::Send(cmd, rule) = next else { panic!("expected a request") };
    assert!(matches!(cmd, DaemonCommand::QueueList { ref device } if device == "TV"));
    let items = vec![QueueEntry { index: 0, title: "a".into(), source: "/m/a.mp4".into(), is_url: false, duration_secs: None }];
    let last = on_reply(rule, ok(Some(ResponseData::Queue { items, current_index: Some(0), shuffle: false, repeat: "none".into() })));
    assert!(matches!(last, Step::Report(BackgroundResult::QueueUpdated { ref message, .. }) if message == "Added: a.mp4"));
    let s = on_reply(ReplyRule::QueueListed("Removed: b".to_string()), Err("x".to_string()));
    assert_eq!(success_text(&s), Some("Removed: b"));
    let s = on_reply(ReplyRule::QueueRefresh, ok(Some(ResponseData::Queue { items: vec![], current_index: None, shuffle: true, repeat: "all".into() })));
    assert!(matches!(s, Step::Report(BackgroundResult::QueueUpdated { ref message, shuffle: true, .. }) if message.is_empty()));
}

#[test]
fn status_poll_combines_both_replies() {
    let d = status_update_of(
        "TV".to_string(),
        Some(Response::Success {
            data: Some(ResponseData::Playback {
                state: "Playing".to_string(),
                position_secs: 4,
                duration_secs: 9,
                current_uri: Some("http://x".to_string()),
            }),
        }),
        None,
    );
    assert_eq!(d.playback_state.as_deref(), Some("Playing"));
    assert_eq!(d.playback_position, Some(4));
    assert_eq!(d.volume, None);
    let v = status_update_of("TV".to_string(), None, Some(Response::Success { data: Some(ResponseData::Volume { volume: 3, muted: true }) }));
    assert_eq!((v.volume, v.muted), (Some(3), Some(true)));
    assert_eq!(v.playback_state, None);
}

#[test]
fn seeking_sets_pending_and_clamps_target() {
    let mut p = player();
    let mut lib = LibraryState::new();
    p.playback_position = 10;
    p.playback_duration = 20;
    p.position_last_update = Some(5);
    let t = process_action(&mut p, &mut lib, Action::SeekBackward(30), 0);
    assert_eq!(sent(&t), vec![format!("{:?}", DaemonCommand::Seek { device: "TV".into(), position_secs: 0 })]);
    assert_eq!(p.pending_operation.as_deref(), Some("Seeking -30s..."));
    assert_eq!(p.position_last_update, None);
    let t = process_action(&mut p, &mut lib, Action::SeekForward(30), 0);
    assert_eq!(sent(&t), vec![format!("{:?}", DaemonCommand::Seek { device: "TV".into(), position_secs: 19 })]);
    assert!(matches!(&t[0], Task::Send(_, ReplyRule::Done(m)) if m == "+30s"));
}

#[test]
fn pausing_saves_the_position_first() {
    let mut p = player();
    let mut lib = LibraryState::new();
    p.playback_state = "Playing".to_string();
    p.current_uri = Some("http://x".to_string());
    p.playback_position = 50;
    let t = process_action(&mut p, &mut lib, Action::PlayPause, 1234);
    assert_eq!(
        sent(&t),
        vec![
            format!("{:?}", DaemonCommand::SavePosition { device: "TV".into() }),
            format!("{:?}", DaemonCommand::Pause { device: "TV".into() }),
        ]
    );
    assert_eq!(p.last_position_save, Some(1234));
    assert_eq!(p.pending_operation.as_deref(), Some("Pausing..."));
    p.playback_state = "PAUSED_PLAYBACK".to_string();
    let t = process_action(&mut p, &mut lib, Action::PlayPause, 2000);
    assert_eq!(sent(&t), vec![format!("{:?}", DaemonCommand::Resume { device: "TV".into() })]);
}

#[test]
fn actions_without_a_device_do_nothing_or_say_so() {
    let mut p = PlayerState::new();
    let mut lib = LibraryState::new();
    assert!(process_action(&mut p, &mut lib, Action::Stop, 0).is_empty());
    let t = process_action(&mut p, &mut lib, Action::ResumeFromHistory("http://h/a.mp4".to_string()), 0);
    assert!(t.is_empty());
    assert_eq!(p.status_message, "No device selected");
}

#[test]
fn repeat_cycles_and_toggles_follow_state() {
    let mut p = player();
    let mut lib = LibraryState::new();
    let t = process_action(&mut p, &mut lib, Action::CycleRepeat, 0);
    assert_eq!(sent(&t), vec![format!("{:?}", DaemonCommand::Repeat { device: "TV".into(), mode: "all".into() })]);
    p.repeat = "all".to_string();
    let t = process_action(&mut p, &mut lib, Action::CycleRepeat, 0);
    assert!(matches!(&t[0], Task::Send(DaemonCommand::Repeat { mode, .. }, ReplyRule::Done(m)) if mode == "one" && m == "Repeat: one"));
    p.repeat = "one".to_string();
    let t = process_action(&mut p, &mut lib, Action::CycleRepeat, 0);
    assert!(matches!(&t[0], Task::Send(DaemonCommand::Repeat { mode, .. }, _) if mode == "none"));
    p.muted = true;
    let t = process_action(&mut p, &mut lib, Action::ToggleMute, 0);
    assert!(matches!(&t[0], Task::Send(DaemonCommand::Mute { mute: None, .. }, ReplyRule::Done(m)) if m == "Unmuted"));
    let t = process_action(&mut p, &mut lib, Action::VolumeDown, 0);
    assert!(matches!(&t[0], Task::Send(DaemonCommand::AdjustVolume { delta: -5, .. }, ReplyRule::Volume(m)) if m == "Vol -"));
    let t = process_action(&mut p, &mut lib, Action::ToggleShuffle, 0);
    assert!(matches!(&t[0], Task::Send(DaemonCommand::Shuffle { enabled: true, .. }, ReplyRule::Done(m)) if m == "Shuffle ON"));
}

#[test]
fn queue_actions_wait_for_pending_work() {
    let mut p = player();
    let mut lib = LibraryState::new();
    let long = format!("http://example.com/{}", "v".repeat(40));
    let t = process_action(&mut p, &mut lib, Action::AddUrlToQueue(long.clone()), 0);
    assert_eq!(t.len(), 1);
    let short = format!("{}...", &long[..40]);
    assert_eq!(p.pending_operation, Some(format!("Adding {short}...")));
    assert!(matches!(&t[0], Task::Send(DaemonCommand::QueueAdd { source, .. }, ReplyRule::ThenListQueue { message, .. })
        if *source == long && *message == format!("Added: {short}")));
    assert!(process_action(&mut p, &mut lib, Action::AddUrlToQueue("http://x".to_string()), 0).is_empty());
    p.pending_operation = None;
    p.queue_items = vec![flingdlna::tui::QueueDisplayItem { index: 0, title: "Song".into(), source: "/m/s.mp3".into(), is_url: false, duration: None }];
    p.filtered_queue_indices = vec![0];
    p.selected_queue = Some(0);
    let t = process_action(&mut p, &mut lib, Action::RemoveFromQueue, 0);
    assert!(matches!(&t[0], Task::Send(DaemonCommand::QueueRemove { index: 0, .. }, ReplyRule::ThenListQueue { message, .. }) if message == "Removed: Song"));
    assert_eq!(p.pending_operation.as_deref(), Some("Removing Song..."));
    p.pending_operation = None;
    let t = process_action(&mut p, &mut lib, Action::PlayQueueItem, 0);
    assert!(matches!(&t[0], Task::Send(DaemonCommand::Push { file, port: 9000, .. }, ReplyRule::Done(m)) if file == "/m/s.mp3" && m == "Playing: Song"));
}

#[test]
fn adding_the_selected_library_file() {
    let mut p = player();
    let mut lib = LibraryState::new();
    lib.set_media_files(
        vec![MediaFileInfo { path: "/m/a.mp4".into(), filename: "a.mp4".into(), size: 1, mime_type: "video/mp4".into(), duration_secs: None }],
        vec![None],
    );
    assert!(process_action(&mut p, &mut lib, Action::EnterFolder, 0).is_empty());
    assert_eq!(lib.current_folder.as_deref(), Some("/m"));
    let t = process_action(&mut p, &mut lib, Action::AddToQueue, 0);
    assert!(matches!(&t[0], Task::Send(DaemonCommand::QueueAdd { source, .. }, _) if source == "/m/a.mp4"));
    assert_eq!(p.pending_operation.as_deref(), Some("Adding a.mp4..."));
    assert!(process_action(&mut p, &mut lib, Action::GoParentFolder, 0).is_empty());
}

#[test]
fn device_change_resets_playback_and_refreshes() {
    let mut p = player();
    let mut lib = LibraryState::new();
    p.playback_state = "Playing".to_string();
    p.playback_position = 40;
    p.volume = 20;
    let t = process_action(&mut p, &mut lib, Action::DeviceChanged, 0);
    assert_eq!(sent(&t), vec![
        format!("{:?}", DaemonCommand::QueueList { device: "TV".into() }),
        "status TV".to_string(),
        format!("{:?}", DaemonCommand::Subscribe { device: "TV".into() }),
    ]);
    assert_eq!(p.playback_state, "Unknown");
    assert_eq!(p.playback_position, 0);
    assert_eq!(p.volume, 20);
    let t = process_action(&mut p, &mut lib, Action::RefreshRenderers, 0);
    assert_eq!(sent(&t), vec![format!("{:?}", DaemonCommand::Refresh { timeout_secs: 3 })]);
    assert!(p.discovering);
    assert!(process_action(&mut p, &mut lib, Action::RefreshRenderers, 0).is_empty());
    let t = process_action(&mut p, &mut lib, Action::SetMediaDir("/media".to_string()), 0);
    assert_eq!(sent(&t), vec![
        format!("{:?}", DaemonCommand::SetMediaDir { path: "/media".into() }),
        format!("{:?}", DaemonCommand::ListMedia),
    ]);
    let t = process_action(&mut p, &mut lib, Action::ToggleAutoRefresh, 0);
    assert!(matches!(&t[0], Task::Send(DaemonCommand::SetAutoRefresh { enabled: false }, ReplyRule::AutoRefresh(false))));
}

#[test]
fn refreshes_apply_their_replies() {
    let mut p = player();
    p.refresh_renderers_cached(ok(Some(ResponseData::Renderers { renderers: vec![renderer("A"), renderer("B")] })));
    assert_eq!(p.status_message, "2 device(s) (cached)");
    p.refresh_renderers_cached(Err("down".to_string()));
    assert_eq!(p.status_message, "No cached devices");
    assert_eq!(p.renderers.len(), 2);
    p.refresh_daemon_info(ok(Some(ResponseData::DaemonInfo { version: "1".into(), uptime_secs: 9, active_streams: 1 })));
    assert_eq!((p.daemon_uptime, p.daemon_streams), (9, 1));
    p.refresh_history(Ok(Response::Failure { message: "no db".to_string() }));
    assert_eq!(p.status_message, "History: no db");
    p.selected_history = None;
    p.refresh_history(ok(Some(ResponseData::Positions {
        positions: vec![PositionEntry { uri: "http://h/a.mp4".into(), position_secs: 1, duration_secs: 2, device: "A".into(), saved_at: 3 }],
    })));
    assert_eq!(p.history_items[0].title, "a.mp4");
    assert_eq!(p.selected_history, Some(0));
    assert!(matches!(p.refresh_queue_request(), Some(DaemonCommand::QueueList { ref device }) if device == "A"));
    p.selected_queue = Some(9);
    p.pending_operation = Some("x".into());
    p.refresh_queue(ok(Some(ResponseData::Queue {
        items: vec![QueueEntry { index: 0, title: "a".into(), source: "s".into(), is_url: false, duration_secs: None }],
        current_index: Some(0),
        shuffle: true,
        repeat: "all".into(),
    })));
    assert_eq!(p.queue_items.len(), 1);
    assert_eq!(p.selected_queue, Some(0));
    assert_eq!(p.pending_operation.as_deref(), Some("x"));
    let mut lib = LibraryState::new();
    refresh_media_files(&mut p, &mut lib, Ok(Response::Failure { message: "off".into() }), vec![]);
    assert_eq!(p.status_message, "Library: off");
    let files = vec![MediaFileInfo { path: "/m/a.mp4".into(), filename: "a.mp4".into(), size: 1, mime_type: "video/mp4".into(), duration_secs: None }];
    refresh_media_files(&mut p, &mut lib, ok(Some(ResponseData::MediaFiles { files })), vec![None]);
    assert_eq!(lib.library_entries.len(), 1);
}
