use flingdlna::daemon::{Notification, QueueEntry, RendererEntry};
use flingdlna::tui::HistoryDisplayItem;
use flingdlna::tui_status::{clear_expired_action, BackgroundResult, PlayerState, StatusUpdateData};

fn renderer(name: &str) -> RendererEntry {
    RendererEntry { name: name.to_string(), location: format!("http://{name}/d.xml"), manufacturer: None, model: None }
}

fn queue_entry(index: usize, title: &str) -> QueueEntry {
    QueueEntry { index, title: title.to_string(), source: format!("/m/{title}.mp4"), is_url: false, duration_secs: Some(60) }
}

fn status(device: &str) -> StatusUpdateData {
    StatusUpdateData {
        device: device.to_string(),
        playback_state: None,
        playback_position: None,
        playback_duration: None,
        current_uri: None,
        volume: None,
        muted: None,
        queue_items: None,
        queue_current: None,
        shuffle: None,
        repeat: None,
    }
}

fn player() -> PlayerState {
    let mut p = PlayerState::new();
    p.handle_background_result(BackgroundResult::Renderers(vec![renderer("TV"), renderer("Radio")]), 0);
    p
}

#[test]
fn new_player_state_defaults() {
    let p = PlayerState::new();
    assert_eq!(p.playback_state, "Unknown");
    assert_eq!(p.repeat, "none");
    assert_eq!(p.status_message, "Press '?' for help");
    assert!(p.auto_refresh);
    assert_eq!(p.selected_device(), None);
}

#[test]
fn renderer_results_set_the_status_line() {
    let mut p = player();
    assert_eq!(p.status_message, "2 renderer(s)");
    assert_eq!(p.selected_device(), Some("TV"));
    p.discovering = true;
    p.handle_background_result(BackgroundResult::Renderers(vec![]), 0);
    assert!(!p.discovering);
    assert_eq!(p.status_message, "No renderers found");
    p.handle_background_result(BackgroundResult::DiscoveryError("timeout".to_string()), 0);
    assert_eq!(p.status_message, "Discovery error: timeout");
    p.pending_operation = Some("Pausing...".to_string());
    p.handle_background_result(BackgroundResult::OperationError("busy".to_string()), 0);
    assert_eq!(p.status_message, "Error: busy");
    assert_eq!(p.pending_operation, None);
    p.handle_background_result(BackgroundResult::AutoRefreshChanged(false), 0);
    assert_eq!(p.status_message, "Auto-refresh: OFF");
    p.handle_background_result(BackgroundResult::SubscriptionResult { device: "TV".to_string(), success: false }, 0);
    assert_eq!(p.status_message, "Failed to subscribe to TV");
}

#[test]
fn status_for_another_device_is_ignored() {
    let mut p = player();
    let mut s = status("Radio");
    s.volume = Some(80);
    s.playback_state = Some("Playing".to_string());
    p.apply_status_update(s, 5000);
    assert_eq!(p.volume, 0);
    assert_eq!(p.playback_state, "Unknown");
}

#[test]
fn status_updates_and_stopped_resets_position() {
    let mut p = player();
    let mut s = status("TV");
    s.playback_state = Some("Playing".to_string());
    s.playback_position = Some(42);
    s.playback_duration = Some(100);
    s.volume = Some(30);
    s.queue_items = Some(vec![queue_entry(0, "Alpha"), queue_entry(1, "beta")]);
    s.repeat = Some("all".to_string());
    p.apply_status_update(s, 7000);
    assert_eq!((p.playback_position, p.playback_duration), (42, 100));
    assert_eq!(p.position_last_update, Some(7000));
    assert_eq!(p.volume, 30);
    assert_eq!(p.queue_items.len(), 2);
    assert_eq!(p.filtered_queue_indices, vec![0, 1]);
    assert_eq!(p.repeat, "all");
    assert_eq!(p.interpolated_position(10_500), 45);
    assert_eq!(p.interpolated_position(1_000_000), 100);
    let mut stop = status("TV");
    stop.playback_state = Some("Stopped".to_string());
    stop.playback_position = Some(50);
    p.apply_status_update(stop, 8000);
    assert_eq!((p.playback_position, p.playback_duration), (0, 0));
    assert_eq!(p.position_last_update, None);
    assert_eq!(p.interpolated_position(9000), 0);
}

#[test]
fn events_apply_to_the_selected_renderer_only() {
    let mut p = player();
    p.subscribed_device = Some("TV".to_string());
    p.playback_position = 12;
    p.position_last_update = Some(1);
    p.apply_events(vec![
        Notification::VolumeChanged { device: "TV".to_string(), volume: 55 },
        Notification::MuteChanged { device: "Radio".to_string(), muted: true },
        Notification::TransportStateChanged { device: "TV".to_string(), state: "PAUSED_PLAYBACK".to_string() },
        Notification::CurrentUriChanged { device: "TV".to_string(), uri: "http://x/a.mp4".to_string() },
    ]);
    assert_eq!(p.volume, 55);
    assert!(!p.muted);
    assert_eq!(p.playback_state, "PAUSED_PLAYBACK");
    assert_eq!(p.playback_position, 12);
    assert_eq!(p.position_last_update, None);
    assert_eq!(p.current_uri.as_deref(), Some("http://x/a.mp4"));
    p.handle_background_result(
        BackgroundResult::EventsReceived(vec![Notification::SubscriptionLost {
            device: "TV".to_string(),
            service: "AVTransport".to_string(),
        }]),
        0,
    );
    assert_eq!(p.subscribed_device, None);
    assert_eq!(p.status_message, "Subscription lost (AVTransport) - will retry");
}

#[test]
fn queue_update_filters_and_clamps_selection() {
    let mut p = player();
    p.search_query = "ALP".to_string();
    p.selected_queue = Some(5);
    p.handle_background_result(
        BackgroundResult::QueueUpdated {
            message: "Added".to_string(),
            items: vec![queue_entry(0, "Alpha"), queue_entry(1, "Beta"), queue_entry(2, "alpine")],
            current_index: Some(1),
            shuffle: true,
            repeat: "one".to_string(),
        },
        0,
    );
    assert_eq!(p.status_message, "Added");
    assert_eq!(p.filtered_queue_indices, vec![0, 2]);
    assert_eq!(p.selected_queue, Some(1));
    assert_eq!(p.selected_actual_queue_index(), Some(2));
    assert_eq!(p.selected_queue_item().map(|q| q.title.as_str()), Some("alpine"));
    assert_eq!(p.queue_current, Some(1));
    assert!(p.shuffle);
}

#[test]
fn history_refresh_resets_selection() {
    let mut p = player();
    p.selected_history = Some(4);
    let item = HistoryDisplayItem {
        uri: "http://x".to_string(),
        title: "X".to_string(),
        position_secs: 10,
        duration_secs: 20,
        device: "TV".to_string(),
        saved_at: 1,
    };
    p.handle_background_result(BackgroundResult::HistoryRefreshed(vec![item]), 0);
    assert_eq!(p.selected_history, Some(0));
    assert_eq!(p.selected_history_item().map(|h| h.title.as_str()), Some("X"));
    p.handle_background_result(BackgroundResult::HistoryRefreshed(vec![]), 0);
    assert_eq!(p.selected_history, None);
}

#[test]
fn position_is_saved_every_thirty_seconds_while_playing() {
    let mut p = player();
    p.playback_state = "Playing".to_string();
    p.current_uri = Some("http://x".to_string());
    p.playback_position = 4;
    assert!(!p.should_auto_save_position(0));
    assert!(p.start_background_save_position("TV", 0).is_none());
    p.playback_position = 5;
    assert!(p.should_auto_save_position(0));
    assert!(p.start_background_save_position("TV", 1000).is_some());
    assert_eq!(p.last_position_save, Some(1000));
    assert!(!p.should_auto_save_position(30_999));
    assert!(p.should_auto_save_position(31_000));
}

#[test]
fn action_feedback_expires_after_a_second() {
    let mut action = Some("Paused".to_string());
    let mut at = Some(1000);
    clear_expired_action(&mut action, &mut at, 2000);
    assert_eq!(action.as_deref(), Some("Paused"));
    clear_expired_action(&mut action, &mut at, 2001);
    assert_eq!(action, None);
    assert_eq!(at, None);
}
