use flingdlna::server::state::ServerState;
use flingdlna::types::{MediaFile, MediaType, ServerInfo};

fn file(id: &str, path: &str) -> MediaFile {
    MediaFile {
        id: id.to_string(),
        path: path.to_string(),
        filename: "f".to_string(),
        mime_type: "video/mp4".to_string(),
        media_type: MediaType::Video,
        size: 1,
        duration: None,
        title: None,
        artist: None,
        album: None,
        parent_id: "0".to_string(),
        year: None,
        resolution: None,
        video_codec: None,
        audio_codec: None,
    }
}

fn state() -> ServerState {
    ServerState::new(ServerInfo {
        friendly_name: "S".into(),
        udn: "uuid:x".into(),
        manufacturer: "m".into(),
        model_name: "n".into(),
    })
}

#[test]
fn adding_counts_only_new_ids() {
    let mut s = state();
    s.add_file(file("a", "/m/a.mp4"));
    s.add_file(file("b", "/m/b.mp4"));
    assert_eq!(s.file_count(), 2);
    s.add_file(file("a", "/m/a2.mp4"));
    assert_eq!(s.file_count(), 2);
    assert_eq!(s.get_file("a").unwrap().path, "/m/a2.mp4");
}

#[test]
fn removing_by_path_and_finding_ids() {
    let mut s = state();
    s.add_file(file("a", "/m/a.mp4"));
    s.add_file(file("b", "/m/b.mp4"));
    let id = s.get_id_by_path("/m//b.mp4").unwrap();
    assert_eq!(s.get_file(&id).unwrap().path, "/m/b.mp4");
    assert!(s.get_id_by_path("/m/c.mp4").is_none());
    let before = s.content_update_id();
    assert!(s.remove_file_by_path("/m/c.mp4").is_none());
    assert_eq!(s.content_update_id(), before);
    let gone = s.remove_file_by_path("/m/b.mp4").unwrap();
    assert_eq!(gone.id, "b");
    assert!(s.get_file("b").is_none());
    assert_eq!(s.file_count(), 1);
}

#[test]
fn device_folders_set_then_cleared_restore_views() {
    let mut s = state();
    s.add_file(file("a", "/pub/a.mp4"));
    s.add_file(file("b", "/tv/b.mp4"));
    s.set_public_folders(vec!["/pub".to_string()]);
    let before: Vec<_> = s.files_by_type_for_client(MediaType::Video, Some("10.0.0.2")).into_iter().map(|f| f.id).collect();
    s.set_device_folders("10.0.0.2", vec!["/tv".to_string()]);
    assert_eq!(s.files_by_type_for_client(MediaType::Video, Some("10.0.0.2")).len(), 2);
    s.set_device_folders("10.0.0.2", vec![]);
    let after: Vec<_> = s.files_by_type_for_client(MediaType::Video, Some("10.0.0.2")).into_iter().map(|f| f.id).collect();
    assert_eq!(before, after);
    assert_eq!(after, vec!["a".to_string()]);
}

#[test]
fn removing_a_directory_keeps_other_ids() {
    let mut s = state();
    s.add_file(file("a", "/m/x/a.mp4"));
    s.add_file(file("b", "/m/y/b.mp4"));
    s.add_file(file("c", "/m/xy/c.mp4"));
    s.remove_files_from_directory("/m/x");
    assert!(s.get_file("a").is_none());
    assert_eq!(s.get_file("b").unwrap().path, "/m/y/b.mp4");
    assert_eq!(s.get_file("c").unwrap().path, "/m/xy/c.mp4");
    assert_eq!(s.file_count(), 2);
}
