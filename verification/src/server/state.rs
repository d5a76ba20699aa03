//! Server state: the media library indexed by id, the content update counter
//! and the folder visibility settings.

use vstd::prelude::*;
use crate::types::{MediaFile, MediaType, ServerInfo};
use crate::paths::{components, path_starts_with, str_path_starts_with, chars_eq};
use crate::text::chars_of;

verus! {

// ---------------------------------------------------------------------------
// The library as a map from id to file
// ---------------------------------------------------------------------------

/// The file stored under `id` (the last entry with that id).
pub open spec fn lookup(s: Seq<MediaFile>, id: Seq<char>) -> Option<MediaFile>
    decreases s.len(),
{
    if s.len() == 0 {
        None
    } else if s.last().id@ == id {
        Some(s.last())
    } else {
        lookup(s.drop_last(), id)
    }
}

/// No two entries share an id.
pub open spec fn unique_ids(s: Seq<MediaFile>) -> bool {
    forall|i: int, j: int| 0 <= i < j < s.len() ==> s[i].id@ != s[j].id@
}

/// The entries whose id is not `k`, in order.
pub open spec fn without_id(s: Seq<MediaFile>, k: Seq<char>) -> Seq<MediaFile>
    decreases s.len(),
{
    if s.len() == 0 {
        s
    } else if s.last().id@ == k {
        without_id(s.drop_last(), k)
    } else {
        without_id(s.drop_last(), k).push(s.last())
    }
}

/// The entries of media type `t`, in order.
pub open spec fn of_type(s: Seq<MediaFile>, t: MediaType) -> Seq<MediaFile>
    decreases s.len(),
{
    if s.len() == 0 {
        s
    } else if s.last().media_type == t {
        of_type(s.drop_last(), t).push(s.last())
    } else {
        of_type(s.drop_last(), t)
    }
}

/// The entries whose path does not start with `dir`, in order.
pub open spec fn outside_dir(s: Seq<MediaFile>, dir: Seq<char>) -> Seq<MediaFile>
    decreases s.len(),
{
    if s.len() == 0 {
        s
    } else if path_starts_with(s.last().path@, dir) {
        outside_dir(s.drop_last(), dir)
    } else {
        outside_dir(s.drop_last(), dir).push(s.last())
    }
}

/// The first entry whose path equals `path` (component by component).
pub open spec fn first_with_path(s: Seq<MediaFile>, path: Seq<char>) -> Option<MediaFile>
    decreases s.len(),
{
    if s.len() == 0 {
        None
    } else if components(s[0].path@) == components(path) {
        Some(s[0])
    } else {
        first_with_path(s.drop_first(), path)
    }
}

pub proof fn lemma_lookup_some(s: Seq<MediaFile>, id: Seq<char>)
    ensures
        lookup(s, id) matches Some(f) ==> s.contains(f) && f.id@ == id,
        lookup(s, id) is None ==> forall|i: int| 0 <= i < s.len() ==> s[i].id@ != id,
    decreases s.len(),
{
    if s.len() > 0 {
        lemma_lookup_some(s.drop_last(), id);
        if s.last().id@ != id {
            if let Some(f) = lookup(s.drop_last(), id) {
                let i = choose|i: int| 0 <= i < s.drop_last().len() && s.drop_last()[i] == f;
                assert(s[i] == f);
            }
            assert forall|i: int| 0 <= i < s.len() && lookup(s, id) is None implies s[i].id@ != id by {
                if i < s.len() - 1 {
                    assert(s[i] == s.drop_last()[i]);
                }
            }
        }
    }
}

pub proof fn lemma_lookup_unique(s: Seq<MediaFile>, i: int)
    requires
        unique_ids(s),
        0 <= i < s.len(),
    ensures
        lookup(s, s[i].id@) == Some(s[i]),
    decreases s.len(),
{
    if i < s.len() - 1 {
        assert(s.last().id@ != s[i].id@);
        assert(s.drop_last()[i] == s[i]);
        lemma_lookup_unique(s.drop_last(), i);
    }
}

pub proof fn lemma_without_id(s: Seq<MediaFile>, k: Seq<char>)
    requires
        unique_ids(s),
    ensures
        unique_ids(without_id(s, k)),
        forall|x: MediaFile| #[trigger] without_id(s, k).contains(x) ==> s.contains(x) && x.id@ != k,
        forall|j: Seq<char>| lookup(without_id(s, k), j) == if j == k { None } else { lookup(s, j) },
    decreases s.len(),
{
    if s.len() > 0 {
        let d = s.drop_last();
        assert(unique_ids(d));
        lemma_without_id(d, k);
        let w = without_id(d, k);
        assert forall|x: MediaFile| w.contains(x) implies s.contains(x) by {
            let i = choose|i: int| 0 <= i < d.len() && d[i] == x;
            assert(s[i] == x);
        }
        if s.last().id@ != k {
            let w2 = w.push(s.last());
            assert(w2.drop_last() =~= w);
            assert forall|a: int, b: int| 0 <= a < b < w2.len() implies w2[a].id@ != w2[b].id@ by {
                if b == w2.len() - 1 {
                    assert(w.contains(w2[a]));
                    let i = choose|i: int| 0 <= i < d.len() && d[i] == w2[a];
                    assert(s[i] == w2[a]);
                } else {
                    assert(w2[a] == w[a] && w2[b] == w[b]);
                }
            }
            assert forall|x: MediaFile| w2.contains(x) implies s.contains(x) && x.id@ != k by {
                if x != s.last() {
                    let i = choose|i: int| 0 <= i < w2.len() && w2[i] == x;
                    assert(w.contains(x));
                }
            }
        }
        assert forall|j: Seq<char>| lookup(without_id(s, k), j) == (if j == k { None } else { lookup(s, j) }) by {
            assert(lookup(w, j) == (if j == k { None } else { lookup(d, j) }));
            if s.last().id@ == k {
                assert(without_id(s, k) == w);
                if j != k {
                    assert(lookup(s, j) == lookup(d, j));
                }
            } else {
                let w2 = w.push(s.last());
                assert(without_id(s, k) == w2);
                assert(w2.drop_last() =~= w);
                assert(w2.last() == s.last());
                if s.last().id@ == j {
                    assert(lookup(w2, j) == Some(s.last()));
                    assert(lookup(s, j) == Some(s.last()));
                } else {
                    assert(lookup(w2, j) == lookup(w, j));
                    assert(lookup(s, j) == lookup(d, j));
                }
            }
        }
    }
}

pub proof fn lemma_outside_dir(s: Seq<MediaFile>, dir: Seq<char>)
    requires
        unique_ids(s),
    ensures
        unique_ids(outside_dir(s, dir)),
        forall|x: MediaFile| #[trigger] outside_dir(s, dir).contains(x) ==> s.contains(x),
    decreases s.len(),
{
    if s.len() > 0 {
        let d = s.drop_last();
        assert(unique_ids(d));
        lemma_outside_dir(d, dir);
        let w = outside_dir(d, dir);
        assert forall|x: MediaFile| w.contains(x) implies s.contains(x) by {
            let i = choose|i: int| 0 <= i < d.len() && d[i] == x;
            assert(s[i] == x);
        }
        if !path_starts_with(s.last().path@, dir) {
            let w2 = w.push(s.last());
            assert forall|a: int, b: int| 0 <= a < b < w2.len() implies w2[a].id@ != w2[b].id@ by {
                if b == w2.len() - 1 {
                    assert(w.contains(w2[a]));
                    let i = choose|i: int| 0 <= i < d.len() && d[i] == w2[a];
                    assert(s[i] == w2[a]);
                } else {
                    assert(w2[a] == w[a] && w2[b] == w[b]);
                }
            }
            assert forall|x: MediaFile| w2.contains(x) implies s.contains(x) by {
                if x != s.last() {
                    assert(w.contains(x));
                }
            }
        }
    }
}

pub proof fn lemma_unique_push(s: Seq<MediaFile>, f: MediaFile)
    requires
        unique_ids(s),
        forall|i: int| 0 <= i < s.len() ==> s[i].id@ != f.id@,
    ensures
        unique_ids(s.push(f)),
        forall|j: Seq<char>| lookup(s.push(f), j) == if j == f.id@ { Some(f) } else { lookup(s, j) },
{
    assert(s.push(f).drop_last() =~= s);
}

/// A file is shown to a client when no folder is configured at all, when it lies
/// in a public folder, or when it lies in one of the client's own folders.
pub open spec fn visible(
    public: Seq<Seq<char>>,
    device: Seq<(Seq<char>, Seq<Seq<char>>)>,
    path: Seq<char>,
    client_ip: Option<Seq<char>>,
) -> bool {
    ||| (public.len() == 0 && device.len() == 0)
    ||| exists|i: int| 0 <= i < public.len() && path_starts_with(path, public[i])
    ||| (client_ip matches Some(ip) && exists|j: int, k: int|
        0 <= j < device.len() && device[j].0 == ip && 0 <= k < device[j].1.len()
            && path_starts_with(path, device[j].1[k]))
}

/// The entries of type `t` shown to the client, in order.
pub open spec fn of_type_for_client(
    s: Seq<MediaFile>,
    t: MediaType,
    public: Seq<Seq<char>>,
    device: Seq<(Seq<char>, Seq<Seq<char>>)>,
    client_ip: Option<Seq<char>>,
) -> Seq<MediaFile>
    decreases s.len(),
{
    if s.len() == 0 {
        s
    } else if s.last().media_type == t && visible(public, device, s.last().path@, client_ip) {
        of_type_for_client(s.drop_last(), t, public, device, client_ip).push(s.last())
    } else {
        of_type_for_client(s.drop_last(), t, public, device, client_ip)
    }
}

/// Internal server state
pub struct ServerState {
    server_info: ServerInfo,
    /// Files, each id once
    files: Vec<MediaFile>,
    /// Content update counter (for ContentDirectory)
    content_update_id: u32,
    /// Public folders (visible to all devices)
    public_folders: Vec<String>,
    /// Per-device folder assignments (device IP -> allowed folders), each IP once
    device_folders: Vec<(String, Vec<String>)>,
}

pub open spec fn string_views(v: Seq<String>) -> Seq<Seq<char>> {
    v.map_values(|s: String| s@)
}

pub open spec fn device_views(v: Seq<(String, Vec<String>)>) -> Seq<(Seq<char>, Seq<Seq<char>>)> {
    v.map_values(|e: (String, Vec<String>)| (e.0@, string_views(e.1@)))
}

impl ServerState {
    /// The files, in the order the state keeps them.
    pub closed spec fn entries(&self) -> Seq<MediaFile> {
        self.files@
    }

    /// The file stored under `id`.
    pub open spec fn file_at(&self, id: Seq<char>) -> Option<MediaFile> {
        lookup(self.entries(), id)
    }

    pub closed spec fn update_id(&self) -> u32 {
        self.content_update_id
    }

    pub closed spec fn info(&self) -> ServerInfo {
        self.server_info
    }

    pub closed spec fn public(&self) -> Seq<Seq<char>> {
        string_views(self.public_folders@)
    }

    pub closed spec fn device(&self) -> Seq<(Seq<char>, Seq<Seq<char>>)> {
        device_views(self.device_folders@)
    }

    /// Each id is stored once; each device appears once, with some folder.
    pub closed spec fn wf(&self) -> bool {
        &&& unique_ids(self.files@)
        &&& device_wf(device_views(self.device_folders@))
    }

    /// Whether the file at `path` is shown to the client.
    pub open spec fn shows(&self, path: Seq<char>, client_ip: Option<Seq<char>>) -> bool {
        visible(self.public(), self.device(), path, client_ip)
    }

    pub fn new(server_info: ServerInfo) -> (r: Self)
        ensures
            r.wf(),
            r.info() == server_info,
            r.entries().len() == 0,
            r.update_id() == 0,
            r.public().len() == 0,
            r.device().len() == 0,
    {
        ServerState {
            server_info,
            files: Vec::new(),
            content_update_id: 0,
            public_folders: Vec::new(),
            device_folders: Vec::new(),
        }
    }

    pub fn server_info(&self) -> (r: ServerInfo)
        ensures
            r == self.info(),
    {
        self.server_info.clone()
    }

    /// Update the server's friendly name
    pub fn set_server_name(&mut self, new_name: String)
        ensures
            final(self).info() == (ServerInfo { friendly_name: new_name, ..old(self).info() }),
            final(self).entries() == old(self).entries(),
            final(self).update_id() == old(self).update_id(),
            final(self).public() == old(self).public(),
            final(self).device() == old(self).device(),
            final(self).wf() == old(self).wf(),
    {
        self.server_info.friendly_name = new_name;
    }

    fn bump(&mut self)
        ensures
            final(self).update_id() == old(self).update_id().wrapping_add(1),
            final(self).entries() == old(self).entries(),
            final(self).info() == old(self).info(),
            final(self).public() == old(self).public(),
            final(self).device() == old(self).device(),
            final(self).wf() == old(self).wf(),
    {
        self.content_update_id = self.content_update_id.wrapping_add(1);
    }

    /// Stores `file` under its id, replacing a file with the same id.
    fn insert(&mut self, file: MediaFile)
        requires
            old(self).wf(),
        ensures
            final(self).wf(),
            final(self).entries() == without_id(old(self).entries(), file.id@).push(file),
            forall|k: Seq<char>| #[trigger] lookup(final(self).entries(), k) == if k == file.id@ {
                Some(file)
            } else {
                old(self).file_at(k)
            },
            final(self).update_id() == old(self).update_id(),
            final(self).info() == old(self).info(),
            final(self).public() == old(self).public(),
            final(self).device() == old(self).device(),
    {
        let ghost old_files = self.files@;
        self.remove_id(&file.id);
        proof {
            lemma_without_id(old_files, file.id@);
            let w = without_id(old_files, file.id@);
            assert forall|i: int| 0 <= i < w.len() implies w[i].id@ != file.id@ by {
                assert(w.contains(w[i]));
            }
            lemma_unique_push(w, file);
        }
        self.files.push(file);
    }

    /// Drops the file stored under `id`; returns it.
    fn remove_id(&mut self, id: &String) -> (r: Option<MediaFile>)
        requires
            old(self).wf(),
        ensures
            final(self).wf(),
            r == old(self).file_at(id@),
            final(self).entries() == without_id(old(self).entries(), id@),
            forall|k: Seq<char>| #[trigger] lookup(final(self).entries(), k) == if k == id@ {
                None
            } else {
                old(self).file_at(k)
            },
            final(self).update_id() == old(self).update_id(),
            final(self).info() == old(self).info(),
            final(self).public() == old(self).public(),
            final(self).device() == old(self).device(),
    {
        let ghost old_files = self.files@;
        let mut kept: Vec<MediaFile> = Vec::new();
        let mut removed: Option<MediaFile> = None;
        let n = self.files.len();
        let mut i: usize = 0;
        while i < n
            invariant
                n == old_files.len(),
                self.files@ == old_files,
                unique_ids(old_files),
                i <= n,
                kept@ == without_id(old_files.take(i as int), id@),
                removed == lookup(old_files.take(i as int), id@),
            decreases n - i,
        {
            let f = self.files[i].clone();
            let ghost t = old_files.take(i as int + 1);
            assert(t.drop_last() =~= old_files.take(i as int));
            assert(t.last() == old_files[i as int]);
            if chars_eq(&chars_of(f.id.as_str()), &chars_of(id.as_str())) {
                removed = Some(f);
            } else {
                kept.push(f);
            }
            i = i + 1;
        }
        assert(old_files.take(n as int) =~= old_files);
        proof {
            lemma_without_id(old_files, id@);
        }
        self.files = kept;
        removed
    }

    pub fn add_files(&mut self, files: Vec<MediaFile>)
        requires
            old(self).wf(),
        ensures
            final(self).wf(),
            forall|k: Seq<char>| #[trigger] lookup(final(self).entries(), k) == match lookup(files@, k) {
                Some(f) => Some(f),
                None => old(self).file_at(k),
            },
            final(self).update_id() == old(self).update_id().wrapping_add(1),
            final(self).info() == old(self).info(),
            final(self).public() == old(self).public(),
            final(self).device() == old(self).device(),
    {
        let ghost start = *self;
        let mut i: usize = 0;
        while i < files.len()
            invariant
                self.wf(),
                i <= files@.len(),
                forall|k: Seq<char>| #[trigger] lookup(self.entries(), k) == match lookup(files@.take(i as int), k) {
                    Some(f) => Some(f),
                    None => start.file_at(k),
                },
                self.update_id() == start.update_id(),
                self.info() == start.info(),
                self.public() == start.public(),
                self.device() == start.device(),
            decreases files@.len() - i,
        {
            let f = files[i].clone();
            let ghost t = files@.take(i as int + 1);
            assert(t.drop_last() =~= files@.take(i as int));
            assert(t.last() == files@[i as int]);
            self.insert(f);
            i = i + 1;
        }
        assert(files@.take(files@.len() as int) =~= files@);
        self.bump();
    }

    pub fn remove_files_from_directory(&mut self, path: &str)
        requires
            old(self).wf(),
        ensures
            final(self).wf(),
            final(self).entries() == outside_dir(old(self).entries(), path@),
            forall|k: Seq<char>| #[trigger] final(self).file_at(k) == match old(self).file_at(k) {
                Some(f) => if path_starts_with(f.path@, path@) { None } else { Some(f) },
                None => None,
            },
            final(self).update_id() == old(self).update_id().wrapping_add(1),
            final(self).info() == old(self).info(),
            final(self).public() == old(self).public(),
            final(self).device() == old(self).device(),
    {
        let ghost old_files = self.files@;
        let mut kept: Vec<MediaFile> = Vec::new();
        let n = self.files.len();
        let mut i: usize = 0;
        while i < n
            invariant
                n == old_files.len(),
                self.files@ == old_files,
                i <= n,
                kept@ == outside_dir(old_files.take(i as int), path@),
            decreases n - i,
        {
            let f = self.files[i].clone();
            let ghost t = old_files.take(i as int + 1);
            assert(t.drop_last() =~= old_files.take(i as int));
            assert(t.last() == old_files[i as int]);
            if !str_path_starts_with(f.path.as_str(), path) {
                kept.push(f);
            }
            i = i + 1;
        }
        assert(old_files.take(n as int) =~= old_files);
        proof {
            lemma_outside_dir(old_files, path@);
            removing_a_directory_keeps_ids(old_files, path@);
        }
        self.files = kept;
        self.bump();
    }

    pub fn files(&self) -> (r: Vec<MediaFile>)
        ensures
            r@ == self.entries(),
    {
        let mut r: Vec<MediaFile> = Vec::new();
        let mut i: usize = 0;
        while i < self.files.len()
            invariant
                i <= self.files@.len(),
                r@ == self.files@.take(i as int),
            decreases self.files@.len() - i,
        {
            r.push(self.files[i].clone());
            assert(r@ =~= self.files@.take(i as int + 1));
            i = i + 1;
        }
        assert(self.files@.take(self.files@.len() as int) =~= self.files@);
        r
    }

    /// Clear all files
    pub fn clear_files(&mut self)
        requires
            old(self).wf(),
        ensures
            final(self).wf(),
            final(self).entries().len() == 0,
            final(self).update_id() == old(self).update_id().wrapping_add(1),
            final(self).info() == old(self).info(),
            final(self).public() == old(self).public(),
            final(self).device() == old(self).device(),
    {
        self.files = Vec::new();
        self.bump();
    }

    pub fn get_file(&self, id: &str) -> (r: Option<MediaFile>)
        requires
            self.wf(),
        ensures
            r == self.file_at(id@),
    {
        let idc = chars_of(id);
        let n = self.files.len();
        let mut i = n;
        assert(self.files@.take(n as int) =~= self.files@);
        while i > 0
            invariant
                idc@ == id@,
                i <= n == self.files@.len(),
                lookup(self.files@, id@) == lookup(self.files@.take(i as int), id@),
            decreases i,
        {
            let ghost t = self.files@.take(i as int);
            assert(t.drop_last() =~= self.files@.take(i as int - 1));
            assert(t.last() == self.files@[i as int - 1]);
            if chars_eq(&chars_of(self.files[i - 1].id.as_str()), &idc) {
                return Some(self.files[i - 1].clone());
            }
            i = i - 1;
        }
        None
    }

    pub fn files_by_type(&self, media_type: MediaType) -> (r: Vec<MediaFile>)
        ensures
            r@ == of_type(self.entries(), media_type),
    {
        let mut r: Vec<MediaFile> = Vec::new();
        let mut i: usize = 0;
        while i < self.files.len()
            invariant
                i <= self.files@.len(),
                r@ == of_type(self.files@.take(i as int), media_type),
            decreases self.files@.len() - i,
        {
            let ghost t = self.files@.take(i as int + 1);
            assert(t.drop_last() =~= self.files@.take(i as int));
            assert(t.last() == self.files@[i as int]);
            if self.files[i].media_type == media_type {
                r.push(self.files[i].clone());
            }
            i = i + 1;
        }
        assert(self.files@.take(self.files@.len() as int) =~= self.files@);
        r
    }

    pub fn content_update_id(&self) -> (r: u32)
        ensures
            r == self.update_id(),
    {
        self.content_update_id
    }

    pub fn file_count(&self) -> (r: usize)
        ensures
            r == self.entries().len(),
    {
        self.files.len()
    }

    /// Add a single file
    pub fn add_file(&mut self, file: MediaFile)
        requires
            old(self).wf(),
        ensures
            final(self).wf(),
            final(self).entries() == without_id(old(self).entries(), file.id@).push(file),
            final(self).entries().len() == old(self).entries().len() + (if old(self).file_at(file.id@) is Some { 0int } else { 1int }),
            forall|k: Seq<char>| #[trigger] lookup(final(self).entries(), k) == if k == file.id@ {
                Some(file)
            } else {
                old(self).file_at(k)
            },
            final(self).update_id() == old(self).update_id().wrapping_add(1),
            final(self).info() == old(self).info(),
            final(self).public() == old(self).public(),
            final(self).device() == old(self).device(),
    {
        proof {
            adding_a_file_counts_new_ids(self.entries(), file);
        }
        self.insert(file);
        self.bump();
    }

    /// Remove a single file by ID
    pub fn remove_file(&mut self, id: &str) -> (r: Option<MediaFile>)
        requires
            old(self).wf(),
        ensures
            final(self).wf(),
            r == old(self).file_at(id@),
            forall|k: Seq<char>| #[trigger] lookup(final(self).entries(), k) == if k == id@ {
                None
            } else {
                old(self).file_at(k)
            },
            final(self).update_id() == if r is Some {
                old(self).update_id().wrapping_add(1)
            } else {
                old(self).update_id()
            },
            final(self).info() == old(self).info(),
            final(self).public() == old(self).public(),
            final(self).device() == old(self).device(),
    {
        let key = String::from_str(id);
        let removed = self.remove_id(&key);
        if removed.is_some() {
            self.bump();
        }
        removed
    }

    /// The index of the first file whose path equals `path`.
    fn index_of_path(&self, path: &str) -> (r: Option<usize>)
        ensures
            match first_with_path(self.entries(), path@) {
                None => r is None,
                Some(f) => r matches Some(i) && i < self.entries().len() && self.entries()[i as int] == f,
            },
    {
        let pc = crate::paths::path_components(&chars_of(path));
        let n = self.files.len();
        let mut i: usize = 0;
        assert(self.files@.skip(0) =~= self.files@);
        while i < n
            invariant
                n == self.files@.len(),
                i <= n,
                crate::text::views(pc@) == components(path@),
                first_with_path(self.files@, path@) == first_with_path(self.files@.skip(i as int), path@),
            decreases n - i,
        {
            let ghost rest = self.files@.skip(i as int);
            assert(rest[0] == self.files@[i as int]);
            assert(rest.drop_first() =~= self.files@.skip(i as int + 1));
            let fc = crate::paths::path_components(&chars_of(self.files[i].path.as_str()));
            if components_eq(&fc, &pc) {
                return Some(i);
            }
            i = i + 1;
        }
        None
    }

    /// Remove a file by path
    pub fn remove_file_by_path(&mut self, path: &str) -> (r: Option<MediaFile>)
        requires
            old(self).wf(),
        ensures
            final(self).wf(),
            r == first_with_path(old(self).entries(), path@),
            match r {
                Some(f) => final(self).entries() == without_id(old(self).entries(), f.id@)
                    && final(self).entries().len() == old(self).entries().len() - 1
                    && old(self).file_at(f.id@) == Some(f)
                    && final(self).update_id() == old(self).update_id().wrapping_add(1),
                None => final(self).entries() == old(self).entries()
                    && final(self).update_id() == old(self).update_id(),
            },
            final(self).info() == old(self).info(),
            final(self).public() == old(self).public(),
            final(self).device() == old(self).device(),
    {
        match self.index_of_path(path) {
            None => None,
            Some(i) => {
                let id = self.files[i].id.clone();
                proof {
                    lemma_lookup_unique(self.files@, i as int);
                    lemma_without_id_len(self.files@, id@);
                }
                let removed = self.remove_id(&id);
                self.bump();
                removed
            },
        }
    }

    /// Get file ID by path
    pub fn get_id_by_path(&self, path: &str) -> (r: Option<String>)
        ensures
            match first_with_path(self.entries(), path@) {
                None => r is None,
                Some(f) => r == Some(f.id),
            },
            self.wf() ==> (r is Some <==> exists|i: int| 0 <= i < self.entries().len()
                && components(#[trigger] self.entries()[i].path@) == components(path@)),
            self.wf() && r is Some ==> (self.file_at(r->Some_0@) matches Some(f) && components(f.path@) == components(path@)),
    {
        proof {
            if self.wf() {
                id_by_path_names_the_file(self.entries(), path@);
            }
        }
        match self.index_of_path(path) {
            None => None,
            Some(i) => Some(self.files[i].id.clone()),
        }
    }

    // === Folder Visibility ===

    /// Set public folders (visible to all devices)
    pub fn set_public_folders(&mut self, folders: Vec<String>)
        requires
            old(self).wf(),
        ensures
            final(self).wf(),
            final(self).public() == string_views(folders@),
            final(self).entries() == old(self).entries(),
            final(self).update_id() == old(self).update_id(),
            final(self).info() == old(self).info(),
            final(self).device() == old(self).device(),
    {
        self.public_folders = folders;
    }

    /// Set folders for a specific device (by IP address); no folders removes the device.
    pub fn set_device_folders(&mut self, device_ip: &str, folders: Vec<String>)
        requires
            old(self).wf(),
        ensures
            final(self).wf(),
            forall|ip: Seq<char>| ip != device_ip@ ==> (device_entry(final(self).device(), ip) == device_entry(old(self).device(), ip)),
            device_entry(final(self).device(), device_ip@) == if folders@.len() == 0 {
                None
            } else {
                Some(string_views(folders@))
            },
            final(self).entries() == old(self).entries(),
            final(self).update_id() == old(self).update_id(),
            final(self).info() == old(self).info(),
            final(self).public() == old(self).public(),
    {
        let ipc = chars_of(device_ip);
        let ghost old_dev = self.device_folders@;
        let mut kept: Vec<(String, Vec<String>)> = Vec::new();
        let n = self.device_folders.len();
        let mut i: usize = 0;
        while i < n
            invariant
                n == old_dev.len(),
                self.device_folders@ == old_dev,
                ipc@ == device_ip@,
                i <= n,
                device_views(kept@) == without_key(device_views(old_dev.take(i as int)), device_ip@),
            decreases n - i,
        {
            let key = self.device_folders[i].0.clone();
            let ghost t = old_dev.take(i as int + 1);
            assert(device_views(t).drop_last() =~= device_views(old_dev.take(i as int)));
            assert(device_views(t).last() == (old_dev[i as int].0@, string_views(old_dev[i as int].1@)));
            if !chars_eq(&chars_of(key.as_str()), &ipc) {
                let folders_i = clone_strings(&self.device_folders[i].1);
                let ghost before = kept@;
                kept.push((key, folders_i));
                assert(device_views(kept@) =~= device_views(before).push(device_views(t).last()));
            }
            i = i + 1;
        }
        assert(old_dev.take(n as int) =~= old_dev);
        proof {
            lemma_without_key(device_views(old_dev), device_ip@);
        }
        let ghost mid = device_views(kept@);
        if folders.len() > 0 {
            let ghost before = kept@;
            kept.push((String::from_str(device_ip), folders));
            assert(device_views(kept@) =~= device_views(before).push((device_ip@, string_views(folders@))));
            proof {
                let d = device_views(kept@);
                assert(d.drop_last() =~= mid);
                assert forall|a: int, b: int| 0 <= a < b < d.len() implies d[a].0 != d[b].0 by {
                    if b == d.len() - 1 {
                        assert(mid.contains(d[a]));
                    } else {
                        assert(d[a] == mid[a] && d[b] == mid[b]);
                    }
                }
                assert(d.last() == (device_ip@, string_views(folders@)));
                assert forall|k: Seq<char>| k != device_ip@ implies device_entry(d, k) == device_entry(mid, k) by {}
                assert(device_entry(d, device_ip@) == Some(string_views(folders@)));
            }
        }
        self.device_folders = kept;
    }

    /// Clear all device folder assignments
    pub fn clear_device_folders(&mut self)
        requires
            old(self).wf(),
        ensures
            final(self).wf(),
            final(self).device().len() == 0,
            final(self).entries() == old(self).entries(),
            final(self).update_id() == old(self).update_id(),
            final(self).info() == old(self).info(),
            final(self).public() == old(self).public(),
    {
        self.device_folders = Vec::new();
    }

    /// Check if a file is visible to a device
    fn is_file_visible(&self, file: &MediaFile, client_ip: Option<&str>) -> (r: bool)
        requires
            self.wf(),
        ensures
            r == self.shows(file.path@, opt_view(client_ip)),
    {
        if self.public_folders.len() == 0 && self.device_folders.len() == 0 {
            return true;
        }
        let n = self.public_folders.len();
        let mut i: usize = 0;
        while i < n
            invariant
                n == self.public_folders@.len(),
                i <= n,
                forall|k: int| 0 <= k < i ==> !path_starts_with(file.path@, self.public_folders@[k]@),
            decreases n - i,
        {
            if str_path_starts_with(file.path.as_str(), self.public_folders[i].as_str()) {
                assert(string_views(self.public_folders@)[i as int] == self.public_folders@[i as int]@);
                return true;
            }
            i = i + 1;
        }
        assert forall|k: int| 0 <= k < self.public().len() implies !path_starts_with(file.path@, #[trigger] self.public()[k]) by {
            assert(string_views(self.public_folders@)[k] == self.public_folders@[k]@);
        }
        match client_ip {
            None => false,
            Some(ip) => {
                let ipc = chars_of(ip);
                let m = self.device_folders.len();
                let mut j: usize = 0;
                while j < m
                    invariant
                        m == self.device_folders@.len(),
                        j <= m,
                        ipc@ == ip@,
                        client_ip == Some(ip),
                        forall|a: int, k: int| 0 <= a < j && 0 <= k < self.device_folders@[a].1@.len()
                            && self.device_folders@[a].0@ == ip@
                            ==> !path_starts_with(file.path@, self.device_folders@[a].1@[k]@),
                    decreases m - j,
                {
                    if chars_eq(&chars_of(self.device_folders[j].0.as_str()), &ipc) {
                        let fl = &self.device_folders[j].1;
                        let mut k: usize = 0;
                        while k < fl.len()
                            invariant
                                j < m == self.device_folders@.len(),
                                fl@ == self.device_folders@[j as int].1@,
                                self.device_folders@[j as int].0@ == ip@,
                                client_ip == Some(ip),
                                k <= fl@.len(),
                                forall|c: int| 0 <= c < k ==> !path_starts_with(file.path@, fl@[c]@),
                            decreases fl@.len() - k,
                        {
                            if str_path_starts_with(file.path.as_str(), fl[k].as_str()) {
                                proof {
                                    let dv = self.device();
                                    assert(dv[j as int] == (self.device_folders@[j as int].0@, string_views(fl@)));
                                    assert(string_views(fl@)[k as int] == fl@[k as int]@);
                                    assert(dv[j as int].0 == ip@ && 0 <= k < dv[j as int].1.len()
                                        && path_starts_with(file.path@, dv[j as int].1[k as int]));
                                    assert(opt_view(client_ip) == Some(ip@));
                                }
                                return true;
                            }
                            k = k + 1;
                        }
                    }
                    j = j + 1;
                }
                proof {
                    let dv = self.device();
                    assert forall|a: int, k: int| 0 <= a < dv.len() && dv[a].0 == ip@ && 0 <= k < dv[a].1.len()
                        implies !path_starts_with(file.path@, dv[a].1[k]) by {
                        assert(dv[a] == (self.device_folders@[a].0@, string_views(self.device_folders@[a].1@)));
                        assert(string_views(self.device_folders@[a].1@)[k] == self.device_folders@[a].1@[k]@);
                    }
                }
                false
            },
        }
    }

    /// Get files by type, filtered by client visibility
    pub fn files_by_type_for_client(&self, media_type: MediaType, client_ip: Option<&str>) -> (r: Vec<MediaFile>)
        requires
            self.wf(),
        ensures
            r@ == of_type_for_client(self.entries(), media_type, self.public(), self.device(), opt_view(client_ip)),
    {
        let mut r: Vec<MediaFile> = Vec::new();
        let mut i: usize = 0;
        while i < self.files.len()
            invariant
                self.wf(),
                i <= self.files@.len(),
                r@ == of_type_for_client(self.files@.take(i as int), media_type, self.public(), self.device(), opt_view(client_ip)),
            decreases self.files@.len() - i,
        {
            let ghost t = self.files@.take(i as int + 1);
            assert(t.drop_last() =~= self.files@.take(i as int));
            assert(t.last() == self.files@[i as int]);
            if self.files[i].media_type == media_type && self.is_file_visible(&self.files[i], client_ip) {
                r.push(self.files[i].clone());
            }
            i = i + 1;
        }
        assert(self.files@.take(self.files@.len() as int) =~= self.files@);
        r
    }

    /// Get a file by ID, checking visibility for client
    pub fn get_file_for_client(&self, id: &str, client_ip: Option<&str>) -> (r: Option<MediaFile>)
        requires
            self.wf(),
        ensures
            r == match self.file_at(id@) {
                Some(f) => if self.shows(f.path@, opt_view(client_ip)) { Some(f) } else { None },
                None => None,
            },
    {
        match self.get_file(id) {
            Some(f) => {
                if self.is_file_visible(&f, client_ip) {
                    Some(f)
                } else {
                    None
                }
            },
            None => None,
        }
    }
}

/// Each device once, each with some folder.
pub open spec fn device_wf(d: Seq<(Seq<char>, Seq<Seq<char>>)>) -> bool {
    &&& forall|i: int, j: int| 0 <= i < j < d.len() ==> d[i].0 != d[j].0
    &&& forall|i: int| 0 <= i < d.len() ==> d[i].1.len() > 0
}

/// The device entries whose key is not `ip`, in order.
pub open spec fn without_key(d: Seq<(Seq<char>, Seq<Seq<char>>)>, ip: Seq<char>) -> Seq<(Seq<char>, Seq<Seq<char>>)>
    decreases d.len(),
{
    if d.len() == 0 {
        d
    } else if d.last().0 == ip {
        without_key(d.drop_last(), ip)
    } else {
        without_key(d.drop_last(), ip).push(d.last())
    }
}

pub proof fn lemma_without_key(d: Seq<(Seq<char>, Seq<Seq<char>>)>, ip: Seq<char>)
    requires
        device_wf(d),
    ensures
        device_wf(without_key(d, ip)),
        forall|x: (Seq<char>, Seq<Seq<char>>)| #[trigger] without_key(d, ip).contains(x) ==> d.contains(x) && x.0 != ip,
        forall|k: Seq<char>| device_entry(without_key(d, ip), k) == if k == ip { None } else { device_entry(d, k) },
    decreases d.len(),
{
    if d.len() > 0 {
        let e = d.drop_last();
        assert(device_wf(e));
        lemma_without_key(e, ip);
        let w = without_key(e, ip);
        assert forall|x: (Seq<char>, Seq<Seq<char>>)| w.contains(x) implies d.contains(x) by {
            let i = choose|i: int| 0 <= i < e.len() && e[i] == x;
            assert(d[i] == x);
        }
        if d.last().0 != ip {
            let w2 = w.push(d.last());
            assert(w2.drop_last() =~= w);
            assert forall|a: int, b: int| 0 <= a < b < w2.len() implies w2[a].0 != w2[b].0 by {
                if b == w2.len() - 1 {
                    assert(w.contains(w2[a]));
                    let i = choose|i: int| 0 <= i < e.len() && e[i] == w2[a];
                    assert(d[i] == w2[a]);
                } else {
                    assert(w2[a] == w[a] && w2[b] == w[b]);
                }
            }
            assert forall|i: int| 0 <= i < w2.len() implies w2[i].1.len() > 0 by {
                if i < w2.len() - 1 {
                    assert(w.contains(w2[i]));
                    let j = choose|j: int| 0 <= j < e.len() && e[j] == w2[i];
                }
            }
            assert forall|x: (Seq<char>, Seq<Seq<char>>)| w2.contains(x) implies d.contains(x) && x.0 != ip by {
                if x != d.last() {
                    assert(w.contains(x));
                }
            }
        } else {
            assert forall|i: int| 0 <= i < w.len() implies w[i].1.len() > 0 by {
                assert(w.contains(w[i]));
                let j = choose|j: int| 0 <= j < e.len() && e[j] == w[i];
            }
        }
        assert forall|k: Seq<char>| device_entry(without_key(d, ip), k) == (if k == ip { None } else { device_entry(d, k) }) by {
            assert(device_entry(w, k) == (if k == ip { None } else { device_entry(e, k) }));
            if d.last().0 == ip {
                assert(without_key(d, ip) == w);
                if k != ip {
                    assert(device_entry(d, k) == device_entry(e, k));
                }
            } else {
                let w2 = w.push(d.last());
                assert(without_key(d, ip) == w2);
                assert(w2.drop_last() =~= w);
                assert(w2.last() == d.last());
                if d.last().0 == k {
                    assert(device_entry(w2, k) == Some(d.last().1));
                    assert(device_entry(d, k) == Some(d.last().1));
                } else {
                    assert(device_entry(w2, k) == device_entry(w, k));
                    assert(device_entry(d, k) == device_entry(e, k));
                }
            }
        }
    }
}

/// The folders assigned to a device.
pub open spec fn device_entry(d: Seq<(Seq<char>, Seq<Seq<char>>)>, ip: Seq<char>) -> Option<Seq<Seq<char>>>
    decreases d.len(),
{
    if d.len() == 0 {
        None
    } else if d.last().0 == ip {
        Some(d.last().1)
    } else {
        device_entry(d.drop_last(), ip)
    }
}

pub open spec fn opt_view(o: Option<&str>) -> Option<Seq<char>> {
    match o {
        Some(s) => Some(s@),
        None => None,
    }
}

pub fn clone_strings(v: &Vec<String>) -> (r: Vec<String>)
    ensures
        r@ == v@,
{
    let mut r: Vec<String> = Vec::new();
    let mut i: usize = 0;
    while i < v.len()
        invariant
            i <= v@.len(),
            r@ == v@.take(i as int),
        decreases v@.len() - i,
    {
        r.push(v[i].clone());
        assert(r@ =~= v@.take(i as int + 1));
        i = i + 1;
    }
    assert(v@.take(v@.len() as int) =~= v@);
    r
}

/// Whether two component lists are equal.
pub fn components_eq(a: &Vec<Vec<char>>, b: &Vec<Vec<char>>) -> (r: bool)
    ensures
        r == (crate::text::views(a@) == crate::text::views(b@)),
{
    let ghost va = crate::text::views(a@);
    let ghost vb = crate::text::views(b@);
    assert(va.len() == a@.len() && vb.len() == b@.len());
    if a.len() != b.len() {
        return false;
    }
    let mut i: usize = 0;
    while i < a.len()
        invariant
            va == crate::text::views(a@),
            vb == crate::text::views(b@),
            a@.len() == b@.len(),
            i <= a@.len(),
            forall|k: int| 0 <= k < i ==> va[k] == vb[k],
        decreases a@.len() - i,
    {
        assert(va[i as int] == a@[i as int]@ && vb[i as int] == b@[i as int]@);
        if !chars_eq(&a[i], &b[i]) {
            return false;
        }
        i = i + 1;
    }
    assert(va =~= vb);
    true
}


/// With no folder configured, every file is shown to every client.
pub proof fn everything_visible_without_folders(
    public: Seq<Seq<char>>,
    device: Seq<(Seq<char>, Seq<Seq<char>>)>,
    path: Seq<char>,
    client_ip: Option<Seq<char>>,
)
    requires
        public.len() == 0,
        device.len() == 0,
    ensures
        visible(public, device, path, client_ip),
{
}

/// A file in a public folder is shown to every client, known or not.
pub proof fn public_folder_visible_to_all(
    public: Seq<Seq<char>>,
    device: Seq<(Seq<char>, Seq<Seq<char>>)>,
    path: Seq<char>,
    i: int,
    client_ip: Option<Seq<char>>,
)
    requires
        0 <= i < public.len(),
        path_starts_with(path, public[i]),
    ensures
        visible(public, device, path, client_ip),
{
}

/// What a client is shown of a media type is a part of the files of that
/// type, in the same order, and each file it is shown is visible to it.
pub proof fn client_view_within_type(
    s: Seq<MediaFile>,
    t: MediaType,
    public: Seq<Seq<char>>,
    device: Seq<(Seq<char>, Seq<Seq<char>>)>,
    client_ip: Option<Seq<char>>,
)
    ensures
        of_type_for_client(s, t, public, device, client_ip).len() <= of_type(s, t).len(),
        forall|x: MediaFile| #[trigger] of_type_for_client(s, t, public, device, client_ip).contains(x)
            ==> of_type(s, t).contains(x) && x.media_type == t && visible(public, device, x.path@, client_ip),
    decreases s.len(),
{
    if s.len() > 0 {
        let d = s.drop_last();
        client_view_within_type(d, t, public, device, client_ip);
        let c = of_type_for_client(d, t, public, device, client_ip);
        let o = of_type(d, t);
        if s.last().media_type == t {
            assert(of_type(s, t) == o.push(s.last()));
            assert forall|x: MediaFile| #[trigger] of_type_for_client(s, t, public, device, client_ip).contains(x)
                implies of_type(s, t).contains(x) && x.media_type == t && visible(public, device, x.path@, client_ip) by {
                let cc = of_type_for_client(s, t, public, device, client_ip);
                let k = choose|k: int| 0 <= k < cc.len() && cc[k] == x;
                if visible(public, device, s.last().path@, client_ip) {
                    assert(cc == c.push(s.last()));
                    if k < c.len() {
                        assert(c.contains(x));
                        let m = choose|m: int| 0 <= m < o.len() && o[m] == x;
                        assert(o.push(s.last())[m] == x);
                    } else {
                        assert(o.push(s.last())[o.len() as int] == x);
                    }
                } else {
                    assert(cc == c);
                    assert(c.contains(x));
                    let m = choose|m: int| 0 <= m < o.len() && o[m] == x;
                    assert(o.push(s.last())[m] == x);
                }
            }
        } else {
            assert(of_type(s, t) == o);
            assert(of_type_for_client(s, t, public, device, client_ip) == c);
        }
    }
}

/// A client whose address is not known sees, once some folder is
/// configured, only the files in public folders.
pub proof fn unknown_client_sees_public_only(
    public: Seq<Seq<char>>,
    device: Seq<(Seq<char>, Seq<Seq<char>>)>,
    path: Seq<char>,
)
    requires
        public.len() > 0 || device.len() > 0,
    ensures
        visible(public, device, path, None) <==> exists|i: int| 0 <= i < public.len() && path_starts_with(path, public[i]),
{
}
/// Adding a file to the files `s` (unique ids) replaces the file with its
/// id, if any: the count grows by one unless that id was already present.
pub proof fn adding_a_file_counts_new_ids(s: Seq<MediaFile>, f: MediaFile)
    requires
        unique_ids(s),
    ensures
        without_id(s, f.id@).push(f).len() == s.len() + (if lookup(s, f.id@) is Some { 0int } else { 1int }),
{
    lemma_without_id_len(s, f.id@);
}

proof fn lemma_without_id_len(s: Seq<MediaFile>, k: Seq<char>)
    requires
        unique_ids(s),
    ensures
        without_id(s, k).len() == s.len() - (if lookup(s, k) is Some { 1int } else { 0int }),
    decreases s.len(),
{
    if s.len() > 0 {
        let d = s.drop_last();
        assert(unique_ids(d));
        lemma_without_id_len(d, k);
        if s.last().id@ == k {
            lemma_lookup_some(d, k);
            if let Some(g) = lookup(d, k) {
                let i = choose|i: int| 0 <= i < d.len() && d[i] == g;
                assert(s[i] == d[i] && s[s.len() - 1] == s.last());
            }
        }
    }
}

/// The first file of `s` whose path has the components of `path`.
proof fn lemma_first_with_path(s: Seq<MediaFile>, path: Seq<char>)
    ensures
        first_with_path(s, path) is Some <==> exists|i: int| 0 <= i < s.len() && components(#[trigger] s[i].path@) == components(path),
        first_with_path(s, path) matches Some(f) ==> s.contains(f) && components(f.path@) == components(path),
    decreases s.len(),
{
    if s.len() > 0 {
        let t = s.drop_first();
        lemma_first_with_path(t, path);
        if components(s[0].path@) != components(path) {
            assert forall|i: int| 0 <= i < t.len() implies t[i] == s[i + 1] by {}
            if exists|i: int| 0 <= i < s.len() && components(#[trigger] s[i].path@) == components(path) {
                let i = choose|i: int| 0 <= i < s.len() && components(#[trigger] s[i].path@) == components(path);
                assert(i > 0);
                assert(t[i - 1] == s[i]);
            }
            if let Some(f) = first_with_path(t, path) {
                let j = choose|j: int| 0 <= j < t.len() && t[j] == f;
                assert(s[j + 1] == f);
            }
        } else {
            assert(s[0] == s[0]);
            assert(s.contains(s[0]));
        }
    }
}

/// Removing by path succeeds exactly when some file has that path (by its
/// components); the file removed has that path, is the file stored under its
/// id, and afterwards no file has that id and one file fewer is stored.
pub proof fn removing_by_path_law(s: Seq<MediaFile>, path: Seq<char>)
    requires
        unique_ids(s),
    ensures
        first_with_path(s, path) is Some <==> exists|i: int| 0 <= i < s.len() && components(#[trigger] s[i].path@) == components(path),
        first_with_path(s, path) matches Some(f) ==> components(f.path@) == components(path)
            && lookup(s, f.id@) == Some(f)
            && lookup(without_id(s, f.id@), f.id@) is None
            && without_id(s, f.id@).len() == s.len() - 1
            && forall|k: Seq<char>| k != f.id@ ==> #[trigger] lookup(without_id(s, f.id@), k) == lookup(s, k),
{
    lemma_first_with_path(s, path);
    if let Some(f) = first_with_path(s, path) {
        let i = choose|i: int| 0 <= i < s.len() && s[i] == f;
        lemma_lookup_unique(s, i);
        lemma_without_id(s, f.id@);
        lemma_without_id_len(s, f.id@);
    }
}

/// The id found for a path names a file with that path: the file stored
/// under the id is the one found.
pub proof fn id_by_path_names_the_file(s: Seq<MediaFile>, path: Seq<char>)
    requires
        unique_ids(s),
    ensures
        first_with_path(s, path) is Some <==> exists|i: int| 0 <= i < s.len() && components(#[trigger] s[i].path@) == components(path),
        first_with_path(s, path) matches Some(f) ==> lookup(s, f.id@) == Some(f) && components(f.path@) == components(path),
{
    removing_by_path_law(s, path);
}

proof fn lemma_device_entry(d: Seq<(Seq<char>, Seq<Seq<char>>)>, ip: Seq<char>)
    requires
        device_wf(d),
    ensures
        device_entry(d, ip) is None ==> forall|j: int| 0 <= j < d.len() ==> d[j].0 != ip,
        forall|j: int| 0 <= j < d.len() && d[j].0 == ip ==> device_entry(d, ip) == Some(#[trigger] d[j].1),
    decreases d.len(),
{
    if d.len() > 0 {
        let e = d.drop_last();
        assert(device_wf(e));
        lemma_device_entry(e, ip);
        assert forall|j: int| 0 <= j < d.len() && d[j].0 == ip implies device_entry(d, ip) == Some(#[trigger] d[j].1) by {
            if j < d.len() - 1 {
                assert(e[j] == d[j]);
                if d.last().0 == ip {
                    assert(d[d.len() - 1].0 == d[j].0);
                }
            }
        }
        assert forall|j: int| 0 <= j < d.len() && device_entry(d, ip) is None implies d[j].0 != ip by {
            if j < d.len() - 1 {
                assert(e[j] == d[j]);
            }
        }
    }
}

proof fn lemma_same_entries_same_visibility(
    public: Seq<Seq<char>>,
    d: Seq<(Seq<char>, Seq<Seq<char>>)>,
    e: Seq<(Seq<char>, Seq<Seq<char>>)>,
    path: Seq<char>,
    client: Option<Seq<char>>,
)
    requires
        device_wf(d),
        device_wf(e),
        forall|ip: Seq<char>| #[trigger] device_entry(d, ip) == device_entry(e, ip),
    ensures
        visible(public, d, path, client) == visible(public, e, path, client),
{
    lemma_same_entries_one_way(public, d, e, path, client);
    lemma_same_entries_one_way(public, e, d, path, client);
}

proof fn lemma_same_entries_one_way(
    public: Seq<Seq<char>>,
    d: Seq<(Seq<char>, Seq<Seq<char>>)>,
    e: Seq<(Seq<char>, Seq<Seq<char>>)>,
    path: Seq<char>,
    client: Option<Seq<char>>,
)
    requires
        device_wf(d),
        device_wf(e),
        forall|ip: Seq<char>| #[trigger] device_entry(d, ip) == device_entry(e, ip),
    ensures
        visible(public, d, path, client) ==> visible(public, e, path, client),
{
    if e.len() > 0 {
        lemma_device_entry(e, e[0].0);
        assert(device_entry(e, e[0].0) is Some);
        assert(device_entry(d, e[0].0) is Some);
        assert(d.len() > 0);
    }
    if let Some(ip) = client {
        if exists|j: int, k: int| 0 <= j < d.len() && d[j].0 == ip && 0 <= k < d[j].1.len() && path_starts_with(path, d[j].1[k]) {
            let (j, k) = choose|j: int, k: int| 0 <= j < d.len() && d[j].0 == ip && 0 <= k < d[j].1.len() && path_starts_with(path, d[j].1[k]);
            lemma_device_entry(d, ip);
            lemma_device_entry(e, ip);
            assert(device_entry(d, ip) == Some(d[j].1));
            assert(exists|j2: int| 0 <= j2 < e.len() && e[j2].0 == ip) by {
                if forall|j2: int| 0 <= j2 < e.len() ==> e[j2].0 != ip {
                    // then the entry would be none
                    lemma_entry_none_when_absent(e, ip);
                }
            }
            let j2 = choose|j2: int| 0 <= j2 < e.len() && e[j2].0 == ip;
            assert(device_entry(e, ip) == Some(e[j2].1));
            assert(0 <= j2 < e.len() && e[j2].0 == ip && 0 <= k < e[j2].1.len() && path_starts_with(path, e[j2].1[k]));
        }
    }
}

proof fn lemma_entry_none_when_absent(d: Seq<(Seq<char>, Seq<Seq<char>>)>, ip: Seq<char>)
    requires
        forall|j: int| 0 <= j < d.len() ==> d[j].0 != ip,
    ensures
        device_entry(d, ip) is None,
    decreases d.len(),
{
    if d.len() > 0 {
        let e = d.drop_last();
        assert forall|j: int| 0 <= j < e.len() implies e[j].0 != ip by {
            assert(e[j] == d[j]);
        }
        assert(d[d.len() - 1].0 != ip);
        lemma_entry_none_when_absent(e, ip);
    }
}

/// Giving a device that had no folders of its own some folders, and then
/// clearing them again (an empty list), leaves every client's view of every
/// path as it was.
pub proof fn device_folders_set_then_cleared(s0: ServerState, s1: ServerState, s2: ServerState, ip: Seq<char>, folders: Seq<Seq<char>>)
    requires
        s0.wf(),
        s1.wf(),
        s2.wf(),
        device_entry(s0.device(), ip) is None,
        forall|x: Seq<char>| x != ip ==> #[trigger] device_entry(s1.device(), x) == device_entry(s0.device(), x),
        device_entry(s1.device(), ip) == (if folders.len() == 0 { None } else { Some(folders) }),
        forall|x: Seq<char>| x != ip ==> #[trigger] device_entry(s2.device(), x) == device_entry(s1.device(), x),
        device_entry(s2.device(), ip) is None,
        s1.public() == s0.public(),
        s2.public() == s1.public(),
    ensures
        forall|path: Seq<char>, client: Option<Seq<char>>|
            #[trigger] visible(s2.public(), s2.device(), path, client) == visible(s0.public(), s0.device(), path, client),
{
    assert forall|x: Seq<char>| #[trigger] device_entry(s2.device(), x) == device_entry(s0.device(), x) by {
        if x != ip {
            assert(device_entry(s2.device(), x) == device_entry(s1.device(), x));
        }
    }
    assert forall|path: Seq<char>, client: Option<Seq<char>>|
        #[trigger] visible(s2.public(), s2.device(), path, client) == visible(s0.public(), s0.device(), path, client) by {
        lemma_same_entries_same_visibility(s0.public(), s2.device(), s0.device(), path, client);
    }
}

impl ServerState {
    /// Each id is stored once: what the laws on the stored files start from.
    pub proof fn ids_are_unique(&self)
        requires
            self.wf(),
        ensures
            unique_ids(self.entries()),
    {
    }
}

/// Removing a directory's files keeps every other file under its own id:
/// an id names afterwards the file it named before, unless that file lies
/// below `dir`, and then nothing.
pub proof fn removing_a_directory_keeps_ids(s: Seq<MediaFile>, dir: Seq<char>)
    requires
        unique_ids(s),
    ensures
        forall|k: Seq<char>| #[trigger] lookup(outside_dir(s, dir), k) == match lookup(s, k) {
            Some(f) => if path_starts_with(f.path@, dir) { None } else { Some(f) },
            None => None,
        },
    decreases s.len(),
{
    if s.len() > 0 {
        let d = s.drop_last();
        let l = s.last();
        assert(unique_ids(d));
        removing_a_directory_keeps_ids(d, dir);
        lemma_lookup_some(d, l.id@);
        if let Some(g) = lookup(d, l.id@) {
            let i = choose|i: int| 0 <= i < d.len() && d[i] == g;
            assert(s[i] == d[i] && s[s.len() - 1] == l);
        }
        assert forall|k: Seq<char>| #[trigger] lookup(outside_dir(s, dir), k) == match lookup(s, k) {
            Some(f) => if path_starts_with(f.path@, dir) { None } else { Some(f) },
            None => None,
        } by {
            assert(lookup(outside_dir(d, dir), k) == match lookup(d, k) {
                Some(f) => if path_starts_with(f.path@, dir) { None } else { Some(f) },
                None => None,
            });
            assert(s.drop_last() == d);
            if !path_starts_with(l.path@, dir) {
                let w = outside_dir(d, dir);
                assert(outside_dir(s, dir) == w.push(l));
                assert(w.push(l).drop_last() =~= w);
                assert(w.push(l).last() == l);
            } else {
                assert(outside_dir(s, dir) == outside_dir(d, dir));
            }
        }
    }
}

} // verus!
