use flingdlna::daemon::MediaFileInfo;
use flingdlna::tui_library::{LibraryEntry, LibraryState};

fn info(path: &str, name: &str, size: u64) -> MediaFileInfo {
    MediaFileInfo {
        path: path.to_string(),
        filename: name.to_string(),
        size,
        mime_type: "video/mp4".to_string(),
        duration_secs: Some(size * 60),
    }
}

fn library() -> LibraryState {
    let mut state = LibraryState::new();
    let files = vec![
        info("/m/Movies/b.mp4", "b.mp4", 1),
        info("/m/Music/x.mp3", "x.mp3", 2),
        info("/m/Movies/A.mkv", "A.mkv", 3),
        info("/m/Movies/Old/c.mp4", "c.mp4", 4),
    ];
    let roots = vec![
        Some("/m/Movies".to_string()),
        Some("/m/Music".to_string()),
        Some("/m/Movies".to_string()),
        Some("/m/Movies".to_string()),
    ];
    state.set_media_files(files, roots);
    state
}

fn folder(e: &LibraryEntry) -> (String, String, usize) {
    match e {
        LibraryEntry::Folder { name, path, file_count } => (name.clone(), path.clone(), *file_count),
        LibraryEntry::File(_) => panic!("expected a folder"),
    }
}

fn file_name(e: &LibraryEntry) -> String {
    match e {
        LibraryEntry::File(f) => f.filename.clone(),
        LibraryEntry::Folder { .. } => panic!("expected a file"),
    }
}

#[test]
fn top_level_lists_root_folders_sorted_with_counts() {
    let state = library();
    assert_eq!(state.library_entries.len(), 2);
    assert_eq!(folder(&state.library_entries[0]), ("Movies".to_string(), "/m/Movies".to_string(), 3));
    assert_eq!(folder(&state.library_entries[1]), ("Music".to_string(), "/m/Music".to_string(), 1));
    assert_eq!(state.selected_library, Some(0));
    assert_eq!(state.library_breadcrumb(), "/");
    assert!(state.is_selected_folder());
    assert!(state.selected_file().is_none());
}

#[test]
fn file_without_root_shows_its_parent() {
    let mut state = LibraryState::new();
    state.set_media_files(
        vec![info("/data/a.mp4", "a.mp4", 1), info("/data/b.mp4", "b.mp4", 1), info("/data/sub/c.mp4", "c.mp4", 1)],
        vec![None, None, None],
    );
    assert_eq!(state.library_entries.len(), 2);
    assert_eq!(folder(&state.library_entries[0]), ("data".to_string(), "/data".to_string(), 2));
    assert_eq!(folder(&state.library_entries[1]), ("sub".to_string(), "/data/sub".to_string(), 1));
}

#[test]
fn entering_a_folder_lists_subfolders_then_files_by_name() {
    let mut state = library();
    assert!(state.enter_selected_folder());
    assert_eq!(state.current_folder, Some("/m/Movies".to_string()));
    assert_eq!(state.library_entries.len(), 3);
    assert_eq!(folder(&state.library_entries[0]), ("Old".to_string(), "/m/Movies/Old".to_string(), 1));
    assert_eq!(file_name(&state.library_entries[1]), "A.mkv");
    assert_eq!(file_name(&state.library_entries[2]), "b.mp4");
    assert_eq!(state.selected_library, Some(0));
    assert_eq!(state.library_breadcrumb(), "/.../m/Movies");
}

#[test]
fn selecting_a_file_is_not_entering() {
    let mut state = library();
    assert!(state.enter_selected_folder());
    state.selected_library = Some(2);
    assert!(!state.is_selected_folder());
    assert_eq!(state.selected_file().map(|f| f.size), Some(1));
    assert!(!state.enter_selected_folder());
    assert_eq!(state.current_folder, Some("/m/Movies".to_string()));
}

#[test]
fn going_up_reaches_parent_with_files_then_top() {
    let mut state = library();
    assert!(!state.go_parent_folder());
    assert!(state.enter_selected_folder());
    assert!(state.go_parent_folder());
    assert_eq!(state.current_folder, Some("/m".to_string()));
    assert_eq!(state.library_breadcrumb(), "///m");
    assert_eq!(state.library_entries.len(), 2);
    assert_eq!(folder(&state.library_entries[0]), ("Movies".to_string(), "/m/Movies".to_string(), 3));
    assert_eq!(folder(&state.library_entries[1]), ("Music".to_string(), "/m/Music".to_string(), 1));
    // "/" holds every file, so the next step goes to the filesystem root.
    assert!(state.go_parent_folder());
    assert_eq!(state.current_folder, Some("/".to_string()));
    assert!(state.go_parent_folder());
    assert_eq!(state.current_folder, None);
}

#[test]
fn parent_without_files_goes_to_top_level() {
    let mut state = library();
    state.current_folder = Some("/other/place".to_string());
    assert!(state.go_parent_folder());
    assert_eq!(state.current_folder, None);
    assert_eq!(state.library_entries.len(), 2);
}

#[test]
fn selection_is_reset_when_out_of_range() {
    let mut state = library();
    state.selected_library = Some(7);
    state.build_library_entries();
    assert_eq!(state.selected_library, Some(0));
    state.selected_library = Some(1);
    state.build_library_entries();
    assert_eq!(state.selected_library, Some(1));
    let mut empty = LibraryState::new();
    empty.selected_library = Some(3);
    empty.build_library_entries();
    assert_eq!(empty.selected_library, None);
    assert!(empty.selected_library_entry().is_none());
}
