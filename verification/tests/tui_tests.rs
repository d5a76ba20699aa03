use flingdlna::tui::{Action, Focus, InputState, Key, Panels, QueueDisplayItem, TextInputs};

fn state() -> InputState {
    InputState {
        focus: Focus::Renderers,
        should_quit: false,
        status_message: String::new(),
        last_action: None,
        inputs: TextInputs {
            url_mode: false,
            url: String::new(),
            dir_mode: false,
            dir: String::new(),
            search_mode: false,
            query: String::new(),
        },
        panels: Panels {
            renderer_count: 2,
            selected_renderer: Some(0),
            library_folders: vec![true, false],
            selected_library: Some(0),
            in_folder: true,
            history_uris: vec!["http://a/1".to_string()],
            selected_history: Some(0),
            queue: vec![
                QueueDisplayItem { index: 0, title: "Song One".into(), source: "s".into(), is_url: false, duration: None },
                QueueDisplayItem { index: 1, title: "Other".into(), source: "s".into(), is_url: false, duration: None },
            ],
            filtered_queue: vec![0, 1],
            selected_queue: Some(0),
        },
    }
}

#[test]
fn keys_drive_the_interface() {
    let mut s = state();
    assert!(matches!(s.handle_key(Key::Down), Some(Action::DeviceChanged)));
    assert_eq!(s.panels.selected_renderer, Some(1));
    assert!(matches!(s.handle_key(Key::Char(' ')), Some(Action::PlayPause)));
    assert_eq!(s.last_action.as_deref(), Some("⏯ Play/Pause"));
    assert!(matches!(s.handle_key(Key::Tab), None));
    assert_eq!(s.focus, Focus::Library);
    assert!(matches!(s.handle_key(Key::Enter), Some(Action::EnterFolder)));
    assert!(matches!(s.handle_key(Key::Backspace), Some(Action::GoParentFolder)));
    assert!(matches!(s.handle_key(Key::Tab), Some(Action::RefreshHistory)));
    assert!(matches!(s.handle_key(Key::Enter), Some(Action::ResumeFromHistory(ref u)) if u == "http://a/1"));
    assert!(matches!(s.handle_key(Key::Left), Some(Action::SeekBackward(10))));
    assert!(s.handle_key(Key::Char('z')).is_none());
    s.handle_key(Key::Char('q'));
    assert!(s.should_quit);
}

#[test]
fn url_input_adds_valid_urls() {
    let mut s = state();
    assert!(s.handle_key(Key::Char('u')).is_none());
    assert!(s.inputs.url_mode);
    for c in "http://x/y".chars() {
        s.handle_key(Key::Char(c));
    }
    s.handle_key(Key::Char('!'));
    s.handle_key(Key::Backspace);
    assert!(matches!(s.handle_key(Key::Enter), Some(Action::AddUrlToQueue(ref u)) if u == "http://x/y"));
    assert!(!s.inputs.url_mode);
    s.handle_key(Key::Char('u'));
    for c in "not a url".chars() {
        s.handle_key(Key::Char(c));
    }
    assert!(s.handle_key(Key::Enter).is_none());
    assert!(s.status_message.starts_with("Invalid URL: "));
}

#[test]
fn search_filters_the_queue() {
    let mut s = state();
    s.handle_key(Key::Char('/'));
    assert_eq!(s.focus, Focus::Queue);
    for c in "song".chars() {
        s.handle_key(Key::Char(c));
    }
    assert_eq!(s.panels.filtered_queue, vec![0]);
    s.handle_key(Key::Esc);
    assert!(!s.inputs.search_mode);
    assert_eq!(s.panels.filtered_queue, vec![0, 1]);
    s.handle_key(Key::Char('d'));
    for c in "/m".chars() {
        s.handle_key(Key::Char(c));
    }
    assert!(matches!(s.handle_key(Key::Enter), Some(Action::SetMediaDir(ref d)) if d == "/m"));
}
