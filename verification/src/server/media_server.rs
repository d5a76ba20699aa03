//! The media server's own bookkeeping: its configured directories, its
//! library, and when the file watcher starts, stops, watches or unwatches a
//! directory. Scanning, watching, serving and announcing are left to the
//! caller, which performs each returned step.

use vstd::prelude::*;
use crate::config::ServerConfig;
use crate::paths::components;
use crate::server::state::{ServerState, first_with_path, lookup, without_id, clone_strings, string_views};
use crate::server::watcher::WatchEvent;
use crate::text::{chars_of, push_str, starts_with};
use crate::types::{MediaFile, ServerInfo, new_uuid_string};

verus! {

/// What the file watcher is to do.
#[derive(Debug)]
pub enum WatcherStep {
    Nothing,
    /// Start a watcher over these directories.
    Start(Vec<String>),
    /// Watch one more directory.
    Watch(String),
    /// Stop watching a directory.
    Unwatch(String),
    /// Stop the watcher.
    Stop,
}

/// Two paths are the same path (component by component).
pub open spec fn same_path(a: Seq<char>, b: Seq<char>) -> bool {
    components(a) == components(b)
}

/// No directory is configured twice.
pub open spec fn distinct_dirs(d: Seq<Seq<char>>) -> bool {
    forall|i: int, j: int| 0 <= i < j < d.len() ==> !same_path(d[i], d[j])
}

/// Some directory of `dirs` is the path `p`.
pub open spec fn covered(p: Seq<char>, dirs: Seq<Seq<char>>) -> bool {
    exists|j: int| 0 <= j < dirs.len() && same_path(p, #[trigger] dirs[j])
}

/// The directory `d` is one of `paths`.
pub open spec fn listed(d: Seq<char>, paths: Seq<Seq<char>>) -> bool {
    exists|i: int| 0 <= i < paths.len() && #[trigger] paths[i] == d
}

/// `dirs` holds each of `paths` (as a path) and nothing else.
pub open spec fn dirs_of_paths(paths: Seq<Seq<char>>, dirs: Seq<Seq<char>>) -> bool {
    &&& forall|i: int| 0 <= i < paths.len() ==> #[trigger] covered(paths[i], dirs)
    &&& forall|j: int| 0 <= j < dirs.len() ==> #[trigger] listed(dirs[j], paths)
}

/// DLNA Media Server
pub struct MediaServer {
    config: ServerConfig,
    state: ServerState,
    watcher_running: bool,
    watched: Vec<String>,
    watch_enabled: bool,
    watch_debounce_ms: u64,
}

pub(crate) fn same_path_exec(a: &str, b: &str) -> (r: bool)
    ensures
        r == same_path(a@, b@),
{
    let ca = crate::paths::path_components(chars_of(a).as_slice());
    let cb = crate::paths::path_components(chars_of(b).as_slice());
    crate::server::state::components_eq(&ca, &cb)
}

fn position_of(dirs: &Vec<String>, path: &str) -> (r: Option<usize>)
    ensures
        match r {
            Some(i) => i < dirs@.len() && same_path(dirs@[i as int]@, path@),
            None => forall|i: int| 0 <= i < dirs@.len() ==> !same_path(#[trigger] dirs@[i]@, path@),
        },
{
    let mut i: usize = 0;
    while i < dirs.len()
        invariant
            i <= dirs@.len(),
            forall|k: int| 0 <= k < i ==> !same_path(#[trigger] dirs@[k]@, path@),
        decreases dirs@.len() - i,
    {
        if same_path_exec(dirs[i].as_str(), path) {
            return Some(i);
        }
        i = i + 1;
    }
    None
}

impl MediaServer {
    pub closed spec fn dirs(&self) -> Seq<Seq<char>> {
        string_views(self.config.directories@)
    }

    pub closed spec fn library(&self) -> ServerState {
        self.state
    }

    pub closed spec fn watching(&self) -> bool {
        self.watcher_running
    }

    pub closed spec fn watches(&self) -> Seq<Seq<char>> {
        string_views(self.watched@)
    }

    pub closed spec fn watch_on(&self) -> bool {
        self.watch_enabled
    }

    pub closed spec fn debounce_ms(&self) -> u64 {
        self.watch_debounce_ms
    }

    pub closed spec fn wf(&self) -> bool {
        self.state.wf()
    }

    /// Create a new media server with the given configuration; its UDN is
    /// `uuid:` and a fresh random UUID.
    pub fn new(config: ServerConfig) -> (r: Self)
        ensures
            r.wf(),
            r.dirs() == string_views(config.directories@),
            r.library().info().friendly_name == config.friendly_name,
            starts_with(r.library().info().udn@, "uuid:"@),
            crate::types::uuid_v4_text(r.library().info().udn@.skip(5)),
            r.library().info().manufacturer == config.manufacturer,
            r.library().info().model_name == config.model_name,
            r.library().entries().len() == 0,
            !r.watching(),
            r.watch_on() == config.watch_enabled,
            r.debounce_ms() == config.watch_debounce_ms,
    {
        let uuid = new_uuid_string();
        let r = MediaServer::with_uuid(config, uuid.as_str());
        proof {
            reveal_strlit("uuid:");
            assert(r.library().info().udn@.take(5) =~= "uuid:"@);
            assert(r.library().info().udn@.skip(5) =~= uuid@);
        }
        r
    }

    /// A new media server whose UDN is `uuid:` and `uuid`.
    pub fn with_uuid(config: ServerConfig, uuid: &str) -> (r: Self)
        ensures
            r.wf(),
            r.dirs() == string_views(config.directories@),
            r.library().info().friendly_name == config.friendly_name,
            r.library().info().udn@ == "uuid:"@ + uuid@,
            r.library().info().manufacturer == config.manufacturer,
            r.library().info().model_name == config.model_name,
            r.library().entries().len() == 0,
            !r.watching(),
            r.watch_on() == config.watch_enabled,
            r.debounce_ms() == config.watch_debounce_ms,
    {
        let mut udn = String::new();
        push_str(&mut udn, "uuid:");
        push_str(&mut udn, uuid);
        let info = ServerInfo {
            friendly_name: config.friendly_name.clone(),
            udn,
            manufacturer: config.manufacturer.clone(),
            model_name: config.model_name.clone(),
        };
        let watch_enabled = config.watch_enabled;
        let watch_debounce_ms = config.watch_debounce_ms;
        MediaServer {
            config,
            state: ServerState::new(info),
            watcher_running: false,
            watched: Vec::new(),
            watch_enabled,
            watch_debounce_ms,
        }
    }

    /// The server's library.
    pub fn state(&self) -> (r: &ServerState)
        ensures
            *r == self.library(),
    {
        &self.state
    }

    /// The configured directories.
    pub fn directories(&self) -> (r: Vec<String>)
        ensures
            string_views(r@) == self.dirs(),
    {
        clone_strings(&self.config.directories)
    }

    fn start_step(&mut self) -> (r: WatcherStep)
        ensures
            r matches WatcherStep::Start(d) && string_views(d@) == old(self).dirs(),
            final(self).watching(),
            final(self).watches() == old(self).dirs(),
            final(self).dirs() == old(self).dirs(),
            final(self).library() == old(self).library(),
            final(self).watch_on() == old(self).watch_on(),
            final(self).debounce_ms() == old(self).debounce_ms(),
    {
        self.watcher_running = true;
        self.watched = clone_strings(&self.config.directories);
        WatcherStep::Start(clone_strings(&self.config.directories))
    }

    /// A directory was added: watch it too, or start the watcher, where
    /// watching is on.
    fn watch_added(&mut self, path: &str) -> (r: WatcherStep)
        ensures
            final(self).dirs() == old(self).dirs(),
            final(self).library() == old(self).library(),
            final(self).watch_on() == old(self).watch_on(),
            final(self).debounce_ms() == old(self).debounce_ms(),
            !old(self).watch_on() ==> r is Nothing && final(self).watching() == old(self).watching(),
            old(self).watch_on() && old(self).watching() ==> (r matches WatcherStep::Watch(p) && p@ == path@)
                && final(self).watching(),
            old(self).watch_on() && !old(self).watching() ==> (r matches WatcherStep::Start(d)
                && string_views(d@) == old(self).dirs()) && final(self).watching(),
    {
        if !self.watch_enabled {
            return WatcherStep::Nothing;
        }
        if self.watcher_running {
            self.watched.push(String::from_str(path));
            WatcherStep::Watch(String::from_str(path))
        } else {
            self.start_step()
        }
    }

    /// Add a directory: `None` where it is configured already; else it is
    /// configured, and the step the watcher takes (the caller then scans the
    /// directory and hands the files to `add_scanned`).
    pub fn add_directory(&mut self, path: &str) -> (r: Option<WatcherStep>)
        requires
            old(self).wf(),
        ensures
            final(self).wf(),
            (exists|i: int| 0 <= i < old(self).dirs().len() && same_path(#[trigger] old(self).dirs()[i], path@))
                ==> r is None && final(self).dirs() == old(self).dirs(),
            !(exists|i: int| 0 <= i < old(self).dirs().len() && same_path(#[trigger] old(self).dirs()[i], path@))
                ==> r is Some && final(self).dirs() == old(self).dirs().push(path@),
            final(self).library() == old(self).library(),
            final(self).watch_on() == old(self).watch_on(),
    {
        match position_of(&self.config.directories, path) {
            Some(i) => {
                assert(same_path(self.dirs()[i as int], path@));
                None
            },
            None => {
                let ghost d0 = self.dirs();
                self.config.directories.push(String::from_str(path));
                proof {
                    let d1 = self.dirs();
                    assert(d1 =~= d0.push(path@));
                }
                let step = self.watch_added(path);
                Some(step)
            },
        }
    }

    /// Add the files scanned from a directory; returns how many.
    pub fn add_scanned(&mut self, files: Vec<MediaFile>) -> (r: usize)
        requires
            old(self).wf(),
        ensures
            final(self).wf(),
            r == files@.len(),
            forall|k: Seq<char>| #[trigger] lookup(final(self).library().entries(), k) == match lookup(files@, k) {
                Some(f) => Some(f),
                None => old(self).library().file_at(k),
            },
            final(self).library().update_id() == old(self).library().update_id().wrapping_add(1),
            final(self).dirs() == old(self).dirs(),
    {
        let n = files.len();
        self.state.add_files(files);
        n
    }

    /// Add pre-scanned files from a directory (configured where it is not yet),
    /// and the step the watcher takes for it.
    pub fn add_scanned_files(&mut self, dir_path: &str, files: Vec<MediaFile>) -> (r: WatcherStep)
        requires
            old(self).wf(),
        ensures
            final(self).wf(),
            forall|k: Seq<char>| #[trigger] lookup(final(self).library().entries(), k) == match lookup(files@, k) {
                Some(f) => Some(f),
                None => old(self).library().file_at(k),
            },
            (exists|i: int| 0 <= i < old(self).dirs().len() && same_path(#[trigger] old(self).dirs()[i], dir_path@))
                ==> final(self).dirs() == old(self).dirs(),
            !(exists|i: int| 0 <= i < old(self).dirs().len() && same_path(#[trigger] old(self).dirs()[i], dir_path@))
                ==> final(self).dirs() == old(self).dirs().push(dir_path@),
    {
        let d = self.add_directory(dir_path);
        self.state.add_files(files);
        match d {
            Some(step) => step,
            None => self.watch_added(dir_path),
        }
    }

    /// Replace all media directories: the watcher stops, each directory is
    /// kept once, and the library is cleared (the caller then scans each
    /// directory, hands the files to `add_scanned`, and calls
    /// `directories_scanned`).
    pub fn set_directories(&mut self, paths: Vec<String>) -> (r: WatcherStep)
        requires
            old(self).wf(),
        ensures
            final(self).wf(),
            final(self).library().entries().len() == 0,
            !final(self).watching(),
            old(self).watching() ==> r is Stop,
            !old(self).watching() ==> r is Nothing,
            dirs_of_paths(string_views(paths@), final(self).dirs()),
            final(self).watch_on() == old(self).watch_on(),
    {
        let step = if self.watcher_running {
            self.watcher_running = false;
            self.watched = Vec::new();
            WatcherStep::Stop
        } else {
            WatcherStep::Nothing
        };
        let mut unique: Vec<String> = Vec::new();
        let mut i: usize = 0;
        while i < paths.len()
            invariant
                i <= paths@.len(),
                distinct_dirs(string_views(unique@)),
                forall|k: int| 0 <= k < i ==> exists|j: int| 0 <= j < unique@.len()
                    && same_path(#[trigger] paths@[k]@, unique@[j]@),
                forall|j: int| 0 <= j < unique@.len() ==> exists|k: int| 0 <= k < paths@.len()
                    && paths@[k]@ == #[trigger] unique@[j]@,
            decreases paths@.len() - i,
        {
            match position_of(&unique, paths[i].as_str()) {
                Some(j) => {
                    assert(same_path(paths@[i as int]@, unique@[j as int]@)) by {
                        assert(components(paths@[i as int]@) == components(unique@[j as int]@));
                    }
                },
                None => {
                    let ghost u0 = unique@;
                    unique.push(paths[i].clone());
                    proof {
                        let uv = string_views(unique@);
                        assert forall|a: int, b: int| 0 <= a < b < uv.len() implies !same_path(uv[a], uv[b]) by {
                            assert(uv[a] == unique@[a]@ && uv[b] == unique@[b]@);
                            if b == uv.len() - 1 {
                                assert(unique@[a] == u0[a]);
                                assert(!same_path(u0[a]@, paths@[i as int]@));
                            } else {
                                assert(string_views(u0)[a] == u0[a]@ && string_views(u0)[b] == u0[b]@);
                            }
                        }
                        assert forall|k: int| 0 <= k < i + 1 implies exists|j: int| 0 <= j < unique@.len()
                            && same_path(#[trigger] paths@[k]@, unique@[j]@) by {
                            if k < i {
                                let j = choose|j: int| 0 <= j < u0.len() && same_path(paths@[k]@, u0[j]@);
                                assert(unique@[j] == u0[j]);
                            } else {
                                assert(unique@[u0.len() as int]@ == paths@[k]@);
                            }
                        }
                        assert forall|j: int| 0 <= j < unique@.len() implies exists|k: int| 0 <= k < paths@.len()
                            && paths@[k]@ == #[trigger] unique@[j]@ by {
                            if j < u0.len() {
                                assert(unique@[j] == u0[j]);
                            } else {
                                assert(paths@[i as int]@ == unique@[j]@);
                            }
                        }
                    }
                },
            }
            i = i + 1;
        }
        self.config.directories = unique;
        self.state.clear_files();
        proof {
            let pv = string_views(paths@);
            let dv = self.dirs();
            assert(pv.len() == paths@.len());
            assert(dv.len() == self.config.directories@.len());
            assert forall|k: int| 0 <= k < pv.len() implies #[trigger] covered(pv[k], dv) by {
                assert(pv[k] == paths@[k]@);
                let j = choose|j: int| 0 <= j < self.config.directories@.len()
                    && same_path(paths@[k]@, self.config.directories@[j]@);
                assert(dv[j] == self.config.directories@[j]@);
                assert(same_path(pv[k], dv[j]));
            }
            assert forall|j: int| 0 <= j < dv.len() implies #[trigger] listed(dv[j], pv) by {
                assert(dv[j] == self.config.directories@[j]@);
                let k = choose|k: int| 0 <= k < paths@.len() && paths@[k]@ == self.config.directories@[j]@;
                assert(pv[k] == paths@[k]@);
            }
        }
        step
    }

    /// After the directories set by `set_directories` were scanned: the
    /// watcher starts where watching is on and there is a directory.
    pub fn directories_scanned(&mut self) -> (r: WatcherStep)
        ensures
            old(self).watch_on() && old(self).dirs().len() > 0 ==> (r matches WatcherStep::Start(d)
                && string_views(d@) == old(self).dirs()) && final(self).watching(),
            !(old(self).watch_on() && old(self).dirs().len() > 0) ==> r is Nothing
                && final(self).watching() == old(self).watching(),
            final(self).dirs() == old(self).dirs(),
            final(self).library() == old(self).library(),
            final(self).watch_on() == old(self).watch_on(),
    {
        if self.watch_enabled && self.config.directories.len() > 0 {
            self.start_step()
        } else {
            WatcherStep::Nothing
        }
    }

    /// Remove a directory from the media library: it is no longer configured,
    /// its files leave the library, the watcher stops watching it, and stops
    /// altogether when no directory is left.
    pub fn remove_directory(&mut self, path: &str) -> (r: Vec<WatcherStep>)
        requires
            old(self).wf(),
        ensures
            final(self).wf(),
            forall|i: int| 0 <= i < final(self).dirs().len() ==> !same_path(#[trigger] final(self).dirs()[i], path@),
            forall|i: int| 0 <= i < old(self).dirs().len() && !same_path(old(self).dirs()[i], path@)
                ==> final(self).dirs().contains(#[trigger] old(self).dirs()[i]),
            final(self).library().entries() == crate::server::state::outside_dir(old(self).library().entries(), path@),
            final(self).dirs().len() == 0 ==> !final(self).watching(),
    {
        let ghost d0 = self.dirs();
        let mut kept: Vec<String> = Vec::new();
        let mut i: usize = 0;
        while i < self.config.directories.len()
            invariant
                d0 == old(self).dirs(),
                self.dirs() == d0,
                i <= d0.len(),
                string_views(kept@).len() == kept@.len(),
                forall|j: int| 0 <= j < kept@.len() ==> !same_path(#[trigger] kept@[j]@, path@),
                forall|k: int| 0 <= k < i && !same_path(d0[k], path@) ==> #[trigger] listed(d0[k], string_views(kept@)),
            decreases d0.len() - i,
        {
            assert(d0[i as int] == self.config.directories@[i as int]@);
            if !same_path_exec(self.config.directories[i].as_str(), path) {
                let ghost k0 = kept@;
                kept.push(self.config.directories[i].clone());
                proof {
                    let kv = string_views(kept@);
                    assert forall|k: int| 0 <= k < i + 1 && !same_path(d0[k], path@) implies #[trigger] listed(d0[k], kv) by {
                        if k < i {
                            assert(listed(d0[k], string_views(k0)));
                            let j = choose|j: int| 0 <= j < string_views(k0).len() && string_views(k0)[j] == d0[k];
                            assert(kv[j] == string_views(k0)[j]);
                        } else {
                            assert(kv[k0.len() as int] == d0[k]);
                        }
                    }
                }
            }
            i = i + 1;
        }
        self.config.directories = kept;
        self.state.remove_files_from_directory(path);
        let mut steps: Vec<WatcherStep> = Vec::new();
        if self.watcher_running {
            if position_of(&self.watched, path).is_some() {
                steps.push(WatcherStep::Unwatch(String::from_str(path)));
            }
        }
        if self.config.directories.len() == 0 && self.watcher_running {
            self.watcher_running = false;
            self.watched = Vec::new();
            steps.push(WatcherStep::Stop);
        }
        proof {
            let d = self.dirs();
            assert forall|j: int| 0 <= j < d.len() implies !same_path(#[trigger] d[j], path@) by {
                assert(d[j] == self.config.directories@[j]@);
            }
            assert forall|k: int| 0 <= k < d0.len() && !same_path(d0[k], path@) implies d.contains(#[trigger] d0[k]) by {
                assert(listed(d0[k], d));
                let j = choose|j: int| 0 <= j < d.len() && d[j] == d0[k];
            }
        }
        steps
    }

    /// Clear all files
    pub fn clear_files(&mut self)
        requires
            old(self).wf(),
        ensures
            final(self).wf(),
            final(self).library().entries().len() == 0,
            final(self).dirs() == old(self).dirs(),
    {
        self.state.clear_files();
    }

    /// Get all media files
    pub fn files(&self) -> (r: Vec<MediaFile>)
        ensures
            r@ == self.library().entries(),
    {
        self.state.files()
    }

    /// Add a single scanned media file (for ad-hoc rescans); returns a copy.
    pub fn add_file(&mut self, file: MediaFile) -> (r: MediaFile)
        requires
            old(self).wf(),
        ensures
            final(self).wf(),
            r == file,
            forall|k: Seq<char>| #[trigger] lookup(final(self).library().entries(), k) == if k == file.id@ {
                Some(file)
            } else {
                old(self).library().file_at(k)
            },
            final(self).dirs() == old(self).dirs(),
    {
        let copy = file.clone();
        self.state.add_file(file);
        copy
    }

    /// Get a file by ID
    pub fn get_file(&self, id: &str) -> (r: Option<MediaFile>)
        requires
            self.wf(),
        ensures
            r == self.library().file_at(id@),
    {
        self.state.get_file(id)
    }

    /// Get the server's UDN
    pub fn udn(&self) -> (r: String)
        ensures
            r@ == self.library().info().udn@,
    {
        self.state.server_info().udn
    }

    /// Check if file watching is enabled
    pub fn watch_enabled(&self) -> (r: bool)
        ensures
            r == self.watch_on(),
    {
        self.watch_enabled
    }

    /// Set the debounce duration for file watching, in milliseconds
    pub fn set_watch_debounce(&mut self, ms: u64)
        ensures
            final(self).debounce_ms() == ms,
            final(self).watch_on() == old(self).watch_on(),
            final(self).dirs() == old(self).dirs(),
            final(self).library() == old(self).library(),
            final(self).watching() == old(self).watching(),
    {
        self.watch_debounce_ms = ms;
    }

    /// The debounce duration for file watching, in milliseconds.
    pub fn watch_debounce(&self) -> (r: u64)
        ensures
            r == self.debounce_ms(),
    {
        self.watch_debounce_ms
    }

    /// Stop the file watcher
    pub fn stop_watcher(&mut self) -> (r: WatcherStep)
        ensures
            !final(self).watching(),
            old(self).watching() ==> r is Stop,
            !old(self).watching() ==> r is Nothing,
            final(self).dirs() == old(self).dirs(),
            final(self).library() == old(self).library(),
            final(self).watch_on() == old(self).watch_on(),
    {
        if self.watcher_running {
            self.watcher_running = false;
            self.watched = Vec::new();
            WatcherStep::Stop
        } else {
            WatcherStep::Nothing
        }
    }

    /// Enable or disable file watching dynamically
    pub fn set_watch_enabled(&mut self, enabled: bool) -> (r: WatcherStep)
        ensures
            final(self).watch_on() == enabled,
            enabled == old(self).watch_on() ==> r is Nothing && final(self).watching() == old(self).watching(),
            enabled && !old(self).watch_on() && !old(self).watching() ==> (r matches WatcherStep::Start(d)
                && string_views(d@) == old(self).dirs()) && final(self).watching(),
            enabled && !old(self).watch_on() && old(self).watching() ==> r is Nothing && final(self).watching(),
            !enabled && old(self).watch_on() ==> !final(self).watching()
                && (old(self).watching() ==> r is Stop) && (!old(self).watching() ==> r is Nothing),
            final(self).dirs() == old(self).dirs(),
            final(self).library() == old(self).library(),
    {
        if enabled == self.watch_enabled {
            return WatcherStep::Nothing;
        }
        self.watch_enabled = enabled;
        if enabled {
            if !self.watcher_running {
                self.start_step()
            } else {
                WatcherStep::Nothing
            }
        } else {
            self.stop_watcher()
        }
    }

    /// Set public folders (visible to all devices)
    pub fn set_public_folders(&mut self, folders: Vec<String>)
        requires
            old(self).wf(),
        ensures
            final(self).wf(),
            final(self).library().public() == string_views(folders@),
            final(self).library().entries() == old(self).library().entries(),
            final(self).dirs() == old(self).dirs(),
    {
        self.state.set_public_folders(folders);
    }

    /// Set folders for a specific device (by IP address)
    pub fn set_device_folders(&mut self, device_ip: &str, folders: Vec<String>)
        requires
            old(self).wf(),
        ensures
            final(self).wf(),
            crate::server::state::device_entry(final(self).library().device(), device_ip@) == if folders@.len() == 0 {
                None
            } else {
                Some(string_views(folders@))
            },
            final(self).library().entries() == old(self).library().entries(),
            final(self).dirs() == old(self).dirs(),
    {
        self.state.set_device_folders(device_ip, folders);
    }

    /// Clear all device folder assignments
    pub fn clear_device_folders(&mut self)
        requires
            old(self).wf(),
        ensures
            final(self).wf(),
            final(self).library().device().len() == 0,
            final(self).library().entries() == old(self).library().entries(),
            final(self).dirs() == old(self).dirs(),
    {
        self.state.clear_device_folders();
    }

    /// Apply a file system event to the library (see `handle_watch_event`).
    pub fn apply_watch_event(&mut self, event: &WatchEvent, scanned: Option<MediaFile>)
        requires
            old(self).wf(),
        ensures
            final(self).wf(),
            watch_event_applied(old(self).library(), *event, scanned, final(self).library()),
            final(self).dirs() == old(self).dirs(),
    {
        handle_watch_event(&mut self.state, event, scanned);
    }

    /// Update the server's friendly name in the library's server info.
    pub fn set_server_name(&mut self, new_name: String)
        requires
            old(self).wf(),
        ensures
            final(self).wf(),
            final(self).library().info() == (ServerInfo { friendly_name: new_name, ..old(self).library().info() }),
            final(self).library().entries() == old(self).library().entries(),
            final(self).dirs() == old(self).dirs(),
    {
        self.state.set_server_name(new_name);
    }
}

/// `after` is the library `before` after a file system event and what
/// scanning gave for it.
pub open spec fn watch_event_applied(before: ServerState, event: WatchEvent, scanned: Option<MediaFile>, after: ServerState) -> bool {
    match event {
        WatchEvent::Created(_) => match scanned {
            Some(f) => forall|k: Seq<char>| #[trigger] lookup(after.entries(), k) == if k == f.id@ {
                Some(f)
            } else {
                before.file_at(k)
            },
            None => after.entries() == before.entries(),
        },
        WatchEvent::Deleted(p) => match first_with_path(before.entries(), p@) {
            Some(g) => after.entries() == without_id(before.entries(), g.id@),
            None => after.entries() == before.entries(),
        },
        WatchEvent::Modified(p) | WatchEvent::Renamed(p, _) => {
            let removed = match first_with_path(before.entries(), p@) {
                Some(g) => without_id(before.entries(), g.id@),
                None => before.entries(),
            };
            match scanned {
                Some(f) => forall|k: Seq<char>| #[trigger] lookup(after.entries(), k) == if k == f.id@ {
                    Some(f)
                } else {
                    lookup(removed, k)
                },
                None => after.entries() == removed,
            }
        },
    }
}

/// Handle a file system watch event, given what scanning the event's (new)
/// path gave (`None` where it is no media file or the event is a deletion):
/// a created file is added; a modified file is removed by path and added
/// again; a deleted file is removed by path; a renamed file is removed under
/// its old path and added under its new one.
pub fn handle_watch_event(state: &mut ServerState, event: &WatchEvent, scanned: Option<MediaFile>)
    requires
        old(state).wf(),
    ensures
        final(state).wf(),
        watch_event_applied(*old(state), *event, scanned, *final(state)),
{
    match event {
        WatchEvent::Created(_) => {
            if let Some(f) = scanned {
                state.add_file(f);
            }
        },
        WatchEvent::Modified(p) | WatchEvent::Renamed(p, _) => {
            state.remove_file_by_path(p.as_str());
            if let Some(f) = scanned {
                state.add_file(f);
            }
        },
        WatchEvent::Deleted(p) => {
            state.remove_file_by_path(p.as_str());
        },
    }
}

} // verus!
