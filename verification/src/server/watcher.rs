//! Which file system changes update the media library. Watching the file
//! system is left to the caller, which hands each change over as a kind and
//! its paths.

use vstd::prelude::*;
use crate::server::scanner::{media_by_extension, media_extension};

verus! {

/// Events emitted by the file watcher
#[derive(Debug)]
pub enum WatchEvent {
    /// A new file was created
    Created(String),
    /// A file was modified
    Modified(String),
    /// A file was deleted
    Deleted(String),
    /// A file was renamed (from, to)
    Renamed(String, String),
}

/// An event as plain values: its kind (0 created, 1 modified, 2 deleted,
/// 3 renamed) and its paths.
pub open spec fn event_view(e: WatchEvent) -> (nat, Seq<char>, Seq<char>) {
    match e {
        WatchEvent::Created(p) => (0, p@, Seq::empty()),
        WatchEvent::Modified(p) => (1, p@, Seq::empty()),
        WatchEvent::Deleted(p) => (2, p@, Seq::empty()),
        WatchEvent::Renamed(a, b) => (3, a@, b@),
    }
}

/// The kind of a file system change, as the watcher reports it.
#[derive(Debug, Clone, Copy, PartialEq, Eq, Structural)]
pub enum ChangeKind {
    Create,
    /// A modification that renames.
    Rename,
    /// Any other modification.
    Modify,
    Remove,
    /// Access and other changes.
    Other,
}

/// Check if a path is a supported media file
pub fn is_media_file(path: &str) -> (r: bool)
    ensures
        r == media_by_extension(path@, false),
{
    media_extension(path, false)
}

/// The media events of the paths, one per media path, each made by `kind`.
pub open spec fn media_events(paths: Seq<String>, kind: nat) -> Seq<(nat, Seq<char>, Seq<char>)>
    decreases paths.len(),
{
    if paths.len() == 0 {
        Seq::empty()
    } else if media_by_extension(paths.last()@, false) {
        media_events(paths.drop_last(), kind).push((kind, paths.last()@, Seq::empty()))
    } else {
        media_events(paths.drop_last(), kind)
    }
}

/// The events a change gives: created and modified media files; a rename,
/// whatever the files, where it has two paths; every removed path (a removed
/// file cannot be told by its content).
pub open spec fn change_events(kind: ChangeKind, paths: Seq<String>) -> Seq<(nat, Seq<char>, Seq<char>)> {
    match kind {
        ChangeKind::Create => media_events(paths, 0),
        ChangeKind::Rename => if paths.len() >= 2 {
            seq![(3nat, paths[0]@, paths[1]@)]
        } else {
            Seq::empty()
        },
        ChangeKind::Modify => media_events(paths, 1),
        ChangeKind::Remove => paths.map_values(|p: String| (2nat, p@, Seq::<char>::empty())),
        ChangeKind::Other => Seq::empty(),
    }
}

/// Convert a file system change to watch events
pub fn convert_event(kind: ChangeKind, paths: &Vec<String>) -> (r: Vec<WatchEvent>)
    ensures
        r@.map_values(|e: WatchEvent| event_view(e)) == change_events(kind, paths@),
{
    let mut events: Vec<WatchEvent> = Vec::new();
    if let ChangeKind::Rename = kind {
        if paths.len() >= 2 {
            events.push(WatchEvent::Renamed(paths[0].clone(), paths[1].clone()));
            assert(events@.map_values(|e: WatchEvent| event_view(e)) =~= change_events(kind, paths@));
        } else {
            assert(events@.map_values(|e: WatchEvent| event_view(e)) =~= change_events(kind, paths@));
        }
        return events;
    }
    if let ChangeKind::Other = kind {
        assert(events@.map_values(|e: WatchEvent| event_view(e)) =~= change_events(kind, paths@));
        return events;
    }
    let mut i: usize = 0;
    while i < paths.len()
        invariant
            kind != ChangeKind::Rename && kind != ChangeKind::Other,
            i <= paths@.len(),
            events@.map_values(|e: WatchEvent| event_view(e)) == change_events(kind, paths@.take(i as int)),
        decreases paths@.len() - i,
    {
        let ghost t = paths@.take(i as int + 1);
        assert(t.drop_last() =~= paths@.take(i as int));
        assert(t.last() == paths@[i as int]);
        let ghost before = events@;
        match kind {
            ChangeKind::Create => {
                if is_media_file(paths[i].as_str()) {
                    events.push(WatchEvent::Created(paths[i].clone()));
                }
            },
            ChangeKind::Modify => {
                if is_media_file(paths[i].as_str()) {
                    events.push(WatchEvent::Modified(paths[i].clone()));
                }
            },
            _ => {
                events.push(WatchEvent::Deleted(paths[i].clone()));
            },
        }
        proof {
            if kind == ChangeKind::Remove {
                assert(t.map_values(|p: String| (2nat, p@, Seq::<char>::empty()))
                    =~= paths@.take(i as int).map_values(|p: String| (2nat, p@, Seq::<char>::empty()))
                        .push((2nat, paths@[i as int]@, Seq::<char>::empty())));
            }
            assert(events@.map_values(|e: WatchEvent| event_view(e)) =~= change_events(kind, t));
        }
        i = i + 1;
    }
    assert(paths@.take(paths@.len() as int) =~= paths@);
    events
}

} // verus!
