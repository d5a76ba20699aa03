//! The terminal interface's library view: the folders and files shown at
//! the top level and inside a folder, sorted by name without case, and the
//! way back up. Which directories hold a file's top-level folder is read from
//! the file system by the caller.

use vstd::prelude::*;
use crate::daemon::{InfoView, MediaFileInfo};
use crate::paths::{components, file_name, join_path, path_components, path_file_name, path_join, path_starts_with, str_path_starts_with};
use crate::server::media_server::{same_path, same_path_exec};
use crate::server::scanner::{parent_of, path_parent};
use crate::text::{chars_of, push_str, string_from_chars, views};
use crate::types::{lowercase, str_to_lowercase};

verus! {

/// Library entry - either a folder or a file
#[derive(Debug)]
pub enum LibraryEntry {
    /// A folder containing media files
    Folder { name: String, path: String, file_count: usize },
    /// A media file
    File(MediaFileInfo),
}

/// A folder as shown: name, path and number of files below it.
pub type FolderView = (Seq<char>, Seq<char>, nat);

/// The entry is the folder `v`.
pub open spec fn is_folder_entry(e: LibraryEntry, v: FolderView) -> bool {
    match e {
        LibraryEntry::Folder { name, path, file_count } => name@ == v.0 && path@ == v.1 && file_count as nat == v.2,
        LibraryEntry::File(_) => false,
    }
}

/// The entry is the file `v`.
pub open spec fn is_file_entry(e: LibraryEntry, v: InfoView) -> bool {
    match e {
        LibraryEntry::Folder { .. } => false,
        LibraryEntry::File(f) => f@ == v,
    }
}

/// `entries` are the folders of `l`, then its files.
pub open spec fn shows(entries: Seq<LibraryEntry>, l: (Seq<FolderView>, Seq<InfoView>)) -> bool {
    &&& entries.len() == l.0.len() + l.1.len()
    &&& forall|i: int| 0 <= i < l.0.len() ==> is_folder_entry(#[trigger] entries[i], l.0[i])
    &&& forall|j: int| 0 <= j < l.1.len() ==> is_file_entry(#[trigger] entries[l.0.len() + j], l.1[j])
}

/// The name a folder is shown under: its file name, else its whole path.
pub open spec fn dir_name(p: Seq<char>) -> Seq<char> {
    match file_name(p) {
        Some(n) => n,
        None => p,
    }
}

/// How many files lie below `root`.
pub open spec fn count_under(files: Seq<MediaFileInfo>, root: Seq<char>) -> nat
    decreases files.len(),
{
    if files.len() == 0 {
        0
    } else {
        count_under(files.drop_last(), root) + if path_starts_with(files.last().path@, root) { 1nat } else { 0nat }
    }
}

/// The file's parent is the directory `dir`.
pub open spec fn lies_in(f: MediaFileInfo, dir: Seq<char>) -> bool {
    match parent_of(f.path@) {
        Some(q) => same_path(q, dir),
        None => false,
    }
}

/// How many files lie directly in `dir`.
pub open spec fn count_in(files: Seq<MediaFileInfo>, dir: Seq<char>) -> nat
    decreases files.len(),
{
    if files.len() == 0 {
        0
    } else {
        count_in(files.drop_last(), dir) + if lies_in(files.last(), dir) { 1nat } else { 0nat }
    }
}

/// Some folder of `fs` is the path `p`.
pub open spec fn has_folder(fs: Seq<FolderView>, p: Seq<char>) -> bool {
    exists|i: int| 0 <= i < fs.len() && same_path(#[trigger] fs[i].1, p)
}

/// The top-level folders of the first `n` files, in the order first met: a
/// file's top-level folder where it has one (`roots`), else its parent.
pub open spec fn root_folders(files: Seq<MediaFileInfo>, roots: Seq<Option<String>>, n: nat) -> Seq<FolderView>
    decreases n,
{
    if n == 0 {
        Seq::empty()
    } else {
        let prev = root_folders(files, roots, (n - 1) as nat);
        match parent_of(files[n - 1].path@) {
            None => prev,
            Some(parent) => {
                let p = match roots[n - 1] {
                    Some(r) => r@,
                    None => parent,
                };
                if has_folder(prev, p) {
                    prev
                } else {
                    let count = match roots[n - 1] {
                        Some(r) => count_under(files, r@),
                        None => count_in(files, parent),
                    };
                    prev.push((dir_name(p), p, count))
                }
            },
        }
    }
}

/// The components of `p` after the first `k`.
pub open spec fn rest_components(p: Seq<char>, k: nat) -> Seq<Seq<char>> {
    components(p).skip(k as int)
}

/// Inside the folder `current`, what the first `n` files give: the
/// subfolders holding some of them (in the order first met) and the files
/// lying directly in it.
pub open spec fn inside_folder(files: Seq<MediaFileInfo>, current: Seq<char>, n: nat) -> (Seq<FolderView>, Seq<InfoView>)
    decreases n,
{
    if n == 0 {
        (Seq::empty(), Seq::empty())
    } else {
        let prev = inside_folder(files, current, (n - 1) as nat);
        let f = files[n - 1];
        if !path_starts_with(f.path@, current) {
            prev
        } else if lies_in(f, current) {
            (prev.0, prev.1.push(f@))
        } else {
            let rel = rest_components(f.path@, components(current).len());
            if rel.len() == 0 {
                prev
            } else {
                let sub = join_path(current, rel[0]);
                if has_folder(prev.0, sub) {
                    prev
                } else {
                    (prev.0.push((rel[0], sub, count_under(files, sub))), prev.1)
                }
            }
        }
    }
}

/// Strings in the order `String` compares them: by their characters, a
/// prefix first.
pub open spec fn text_lt(a: Seq<char>, b: Seq<char>) -> bool
    decreases a.len(),
{
    if b.len() == 0 {
        false
    } else if a.len() == 0 {
        true
    } else if a[0] != b[0] {
        (a[0] as u32) < (b[0] as u32)
    } else {
        text_lt(a.drop_first(), b.drop_first())
    }
}

/// `e` put into `sorted` after every item whose key is not greater than its
/// own: one step of a stable sort by `key`.
pub open spec fn insert_by<A>(sorted: Seq<A>, e: A, key: spec_fn(A) -> Seq<char>) -> Seq<A>
    decreases sorted.len(),
{
    if sorted.len() == 0 {
        seq![e]
    } else if text_lt(key(e), key(sorted.last())) {
        insert_by(sorted.drop_last(), e, key).push(sorted.last())
    } else {
        sorted.push(e)
    }
}

/// `s` stably sorted by `key` (`slice::sort_by` on the keys).
pub open spec fn stable_sort_by<A>(s: Seq<A>, key: spec_fn(A) -> Seq<char>) -> Seq<A>
    decreases s.len(),
{
    if s.len() == 0 {
        Seq::empty()
    } else {
        insert_by(stable_sort_by(s.drop_last(), key), s.last(), key)
    }
}

/// Folders are sorted by their lower-cased names.
pub open spec fn folder_key(f: FolderView) -> Seq<char> {
    lowercase(f.0)
}

/// Files are sorted by their lower-cased file names.
pub open spec fn file_key(f: InfoView) -> Seq<char> {
    lowercase(f.1)
}

/// The sort key of folders.
pub open spec fn by_folder_name() -> spec_fn(FolderView) -> Seq<char> {
    |f: FolderView| folder_key(f)
}

/// The sort key of files.
pub open spec fn by_file_name() -> spec_fn(InfoView) -> Seq<char> {
    |f: InfoView| file_key(f)
}

/// What the library view lists: at the top level the top-level folders;
/// inside a folder its subfolders, then its files; each part sorted by name.
pub open spec fn listing(files: Seq<MediaFileInfo>, roots: Seq<Option<String>>, current: Option<Seq<char>>) -> (Seq<FolderView>, Seq<InfoView>) {
    match current {
        None => (stable_sort_by(root_folders(files, roots, files.len()), by_folder_name()), Seq::empty()),
        Some(c) => {
            let inside = inside_folder(files, c, files.len());
            (stable_sort_by(inside.0, by_folder_name()), stable_sort_by(inside.1, by_file_name()))
        },
    }
}

/// The views of a sequence of values.
pub open spec fn vs<T: View>(s: Seq<T>) -> Seq<T::V> {
    s.map_values(|x: T| x@)
}

/// Whether `a` comes before `b` as strings.
fn text_lt_exec(a: &Vec<char>, b: &Vec<char>) -> (r: bool)
    ensures
        r == text_lt(a@, b@),
{
    let mut i: usize = 0;
    assert(a@.skip(0) =~= a@ && b@.skip(0) =~= b@);
    while i < a.len() && i < b.len() && a[i] == b[i]
        invariant
            i <= a@.len(),
            i <= b@.len(),
            text_lt(a@, b@) == text_lt(a@.skip(i as int), b@.skip(i as int)),
        decreases a@.len() - i,
    {
        assert(a@.skip(i as int).drop_first() =~= a@.skip(i + 1));
        assert(b@.skip(i as int).drop_first() =~= b@.skip(i + 1));
        i = i + 1;
    }
    if i == b.len() {
        false
    } else if i == a.len() {
        true
    } else {
        assert(a@.skip(i as int)[0] == a@[i as int] && b@.skip(i as int)[0] == b@[i as int]);
        (a[i] as u32) < (b[i] as u32)
    }
}

/// Inserting after the last item whose key is not greater is one step of
/// the stable sort.
proof fn lemma_insert_by_at<A>(sorted: Seq<A>, e: A, key: spec_fn(A) -> Seq<char>, j: int)
    requires
        0 <= j <= sorted.len(),
        forall|k: int| j <= k < sorted.len() ==> text_lt(key(e), key(#[trigger] sorted[k])),
        j == 0 || !text_lt(key(e), key(sorted[j - 1])),
    ensures
        insert_by(sorted, e, key) == sorted.insert(j, e),
    decreases sorted.len(),
{
    if sorted.len() == 0 {
        assert(seq![e] =~= sorted.insert(j, e));
    } else if j == sorted.len() {
        assert(sorted.push(e) =~= sorted.insert(j, e));
    } else {
        assert(text_lt(key(e), key(sorted[sorted.len() - 1])));
        let d = sorted.drop_last();
        assert forall|k: int| j <= k < d.len() implies text_lt(key(e), key(#[trigger] d[k])) by {
            assert(d[k] == sorted[k]);
        }
        if j > 0 {
            assert(d[j - 1] == sorted[j - 1]);
        }
        lemma_insert_by_at(d, e, key, j);
        assert(d.insert(j, e).push(sorted.last()) =~= sorted.insert(j, e));
    }
}

/// `items` stably sorted by their keys (`keys[i]` is the key of `items[i]`).
fn sort_by_keys<T: View>(items: Vec<T>, keys: Vec<Vec<char>>, Ghost(key): Ghost<spec_fn(T::V) -> Seq<char>>) -> (r: Vec<T>)
    requires
        keys@.len() == items@.len(),
        forall|i: int| 0 <= i < items@.len() ==> (#[trigger] keys@[i])@ == key(items@[i]@),
    ensures
        vs(r@) == stable_sort_by(vs(items@), key),
{
    let ghost ov = vs(items@);
    let ghost n = items@.len();
    let mut items = items;
    let mut keys = keys;
    let mut out: Vec<T> = Vec::new();
    let mut out_keys: Vec<Vec<char>> = Vec::new();
    assert(ov.take(0) =~= Seq::<T::V>::empty());
    assert(vs(out@) =~= Seq::<T::V>::empty());
    assert(vs(items@) =~= ov.skip(0));
    while items.len() > 0
        invariant
            ov.len() == n,
            vs(items@) == ov.skip(n - items@.len()),
            keys@.len() == items@.len(),
            items@.len() <= n,
            forall|i: int| 0 <= i < items@.len() ==> (#[trigger] keys@[i])@ == key(items@[i]@),
            vs(out@) == stable_sort_by(ov.take(n - items@.len()), key),
            out_keys@.len() == out@.len(),
            forall|i: int| 0 <= i < out@.len() ==> (#[trigger] out_keys@[i])@ == key(out@[i]@),
        decreases items@.len(),
    {
        let ghost i = n - items@.len();
        let ghost old_items = items@;
        let ghost old_keys = keys@;
        let e = items.remove(0);
        let ke = keys.remove(0);
        assert(ke@ == key(e@));
        assert(vs(old_items)[0] == e@);
        assert(e@ == ov[i]);
        assert(vs(items@) =~= ov.skip(n - items@.len())) by {
            assert(items@ =~= old_items.drop_first());
            assert forall|k: int| 0 <= k < items@.len() implies #[trigger] vs(items@)[k] == ov.skip(i + 1)[k] by {
                assert(vs(old_items)[k + 1] == ov.skip(i)[k + 1]);
            }
        }
        assert forall|k: int| 0 <= k < items@.len() implies (#[trigger] keys@[k])@ == key(items@[k]@) by {
            assert(keys@[k] == old_keys[k + 1] && items@[k] == old_items[k + 1]);
        }
        let ghost sorted = vs(out@);
        let mut j: usize = out.len();
        while j > 0 && text_lt_exec(&ke, &out_keys[j - 1])
            invariant
                j <= out@.len(),
                sorted == vs(out@),
                out_keys@.len() == out@.len(),
                forall|i: int| 0 <= i < out@.len() ==> (#[trigger] out_keys@[i])@ == key(out@[i]@),
                ke@ == key(e@),
                forall|k: int| j <= k < sorted.len() ==> text_lt(key(e@), key(#[trigger] sorted[k])),
            decreases j,
        {
            j = j - 1;
        }
        proof {
            lemma_insert_by_at(sorted, e@, key, j as int);
        }
        let ghost ev = e@;
        out.insert(j, e);
        out_keys.insert(j, ke);
        assert(vs(out@) =~= sorted.insert(j as int, ev));
        assert(ov.take(i + 1).drop_last() =~= ov.take(i));
        assert(ov.take(i + 1).last() == ov[i]);
        assert forall|k: int| 0 <= k < out@.len() implies (#[trigger] out_keys@[k])@ == key(out@[k]@) by {
            if k < j {
            } else if k == j {
            } else {
            }
        }
    }
    assert(ov.take(n as int) =~= ov);
    out
}

/// A folder row while the listing is built.
struct FolderRow {
    name: String,
    path: String,
    file_count: usize,
}

impl View for FolderRow {
    type V = FolderView;

    closed spec fn view(&self) -> FolderView {
        (self.name@, self.path@, self.file_count as nat)
    }
}

proof fn lemma_count_under_bound(files: Seq<MediaFileInfo>, root: Seq<char>)
    ensures
        count_under(files, root) <= files.len(),
    decreases files.len(),
{
    if files.len() > 0 {
        lemma_count_under_bound(files.drop_last(), root);
    }
}

/// The number of files below `root`.
fn count_under_exec(files: &Vec<MediaFileInfo>, root: &str) -> (r: usize)
    ensures
        r == count_under(files@, root@),
{
    let mut r: usize = 0;
    let mut i: usize = 0;
    assert(files@.take(0) =~= Seq::<MediaFileInfo>::empty());
    while i < files.len()
        invariant
            i <= files@.len(),
            r == count_under(files@.take(i as int), root@),
        decreases files@.len() - i,
    {
        proof {
            lemma_count_under_bound(files@.take(i as int), root@);
        }
        assert(files@.take(i + 1).drop_last() =~= files@.take(i as int));
        assert(files@.take(i + 1).last() == files@[i as int]);
        if str_path_starts_with(&files[i].path, root) {
            r = r + 1;
        }
        i = i + 1;
    }
    assert(files@.take(files@.len() as int) =~= files@);
    r
}

proof fn lemma_count_in_bound(files: Seq<MediaFileInfo>, dir: Seq<char>)
    ensures
        count_in(files, dir) <= files.len(),
    decreases files.len(),
{
    if files.len() > 0 {
        lemma_count_in_bound(files.drop_last(), dir);
    }
}

/// Whether the file lies directly in `dir`.
fn lies_in_exec(f: &MediaFileInfo, dir: &str) -> (r: bool)
    ensures
        r == lies_in(*f, dir@),
{
    match path_parent(&f.path) {
        Some(q) => same_path_exec(&q, dir),
        None => false,
    }
}

/// The number of files lying directly in `dir`.
fn count_in_exec(files: &Vec<MediaFileInfo>, dir: &str) -> (r: usize)
    ensures
        r == count_in(files@, dir@),
{
    let mut r: usize = 0;
    let mut i: usize = 0;
    assert(files@.take(0) =~= Seq::<MediaFileInfo>::empty());
    while i < files.len()
        invariant
            i <= files@.len(),
            r == count_in(files@.take(i as int), dir@),
        decreases files@.len() - i,
    {
        proof {
            lemma_count_in_bound(files@.take(i as int), dir@);
        }
        assert(files@.take(i + 1).drop_last() =~= files@.take(i as int));
        assert(files@.take(i + 1).last() == files@[i as int]);
        if lies_in_exec(&files[i], dir) {
            r = r + 1;
        }
        i = i + 1;
    }
    assert(files@.take(files@.len() as int) =~= files@);
    r
}

/// Whether some row is the folder `p`.
fn has_folder_exec(rows: &Vec<FolderRow>, p: &str) -> (r: bool)
    ensures
        r == has_folder(vs(rows@), p@),
{
    let ghost v = vs(rows@);
    let mut i: usize = 0;
    while i < rows.len()
        invariant
            i <= rows@.len(),
            v == vs(rows@),
            forall|k: int| 0 <= k < i ==> !same_path(#[trigger] v[k].1, p@),
        decreases rows@.len() - i,
    {
        assert(v[i as int] == rows@[i as int]@);
        if same_path_exec(&rows[i].path, p) {
            assert(same_path(v[i as int].1, p@));
            return true;
        }
        i = i + 1;
    }
    false
}

/// The name a folder is shown under.
fn folder_name(p: &str) -> (r: String)
    ensures
        r@ == dir_name(p@),
{
    let pc = chars_of(p);
    match path_file_name(pc.as_slice()) {
        Some(n) => string_from_chars(n.as_slice()),
        None => p.to_owned(),
    }
}

/// The top-level folders, in the order first met.
fn top_level_rows(files: &Vec<MediaFileInfo>, roots: &Vec<Option<String>>) -> (r: Vec<FolderRow>)
    requires
        roots@.len() == files@.len(),
    ensures
        vs(r@) == root_folders(files@, roots@, files@.len()),
{
    let mut rows: Vec<FolderRow> = Vec::new();
    let mut i: usize = 0;
    assert(vs(rows@) =~= Seq::<FolderView>::empty());
    while i < files.len()
        invariant
            i <= files@.len(),
            roots@.len() == files@.len(),
            vs(rows@) == root_folders(files@, roots@, i as nat),
        decreases files@.len() - i,
    {
        let ghost prev = vs(rows@);
        match path_parent(&files[i].path) {
            None => {},
            Some(parent) => {
                let p: String = match &roots[i] {
                    Some(r) => r.clone(),
                    None => parent.clone(),
                };
                if !has_folder_exec(&rows, &p) {
                    let name = folder_name(&p);
                    let count: usize = match &roots[i] {
                        Some(r) => count_under_exec(files, r),
                        None => count_in_exec(files, &parent),
                    };
                    let row = FolderRow { name, path: p, file_count: count };
                    assert(row@ == (name@, p@, count as nat));
                    rows.push(row);
                    assert(vs(rows@) =~= prev.push(row@));
                }
            },
        }
        i = i + 1;
    }
    rows
}

/// Inside the folder `current`: its subfolders, in the order first met, and
/// the files lying directly in it.
fn inside_rows(files: &Vec<MediaFileInfo>, current: &str) -> (r: (Vec<FolderRow>, Vec<MediaFileInfo>))
    ensures
        vs(r.0@) == inside_folder(files@, current@, files@.len()).0,
        vs(r.1@) == inside_folder(files@, current@, files@.len()).1,
{
    let mut rows: Vec<FolderRow> = Vec::new();
    let mut direct: Vec<MediaFileInfo> = Vec::new();
    let cc = path_components(chars_of(current).as_slice());
    let k: usize = cc.len();
    proof {
        assert(views(cc@).len() == cc@.len());
    }
    let mut i: usize = 0;
    assert(vs(rows@) =~= Seq::<FolderView>::empty());
    assert(vs(direct@) =~= Seq::<InfoView>::empty());
    while i < files.len()
        invariant
            i <= files@.len(),
            k == components(current@).len(),
            vs(rows@) == inside_folder(files@, current@, i as nat).0,
            vs(direct@) == inside_folder(files@, current@, i as nat).1,
        decreases files@.len() - i,
    {
        let ghost prev_rows = vs(rows@);
        let ghost prev_direct = vs(direct@);
        let f = &files[i];
        if str_path_starts_with(&f.path, current) {
            if lies_in_exec(f, current) {
                let c = f.copy();
                direct.push(c);
                assert(vs(direct@) =~= prev_direct.push(f@));
            } else {
                let pc = path_components(chars_of(&f.path).as_slice());
                let ghost rel = rest_components(f.path@, k as nat);
                proof {
                    assert(views(pc@).len() == pc@.len());
                }
                if k < pc.len() {
                    assert(rel[0] == views(pc@)[k as int]);
                    let first = string_from_chars(pc[k].as_slice());
                    assert(first@ == rel[0]);
                    let sub = path_join(current, first.as_str());
                    if !has_folder_exec(&rows, &sub) {
                        let count = count_under_exec(files, &sub);
                        let row = FolderRow { name: first, path: sub, file_count: count };
                        assert(row@ == (rel[0], join_path(current@, rel[0]), count as nat));
                        rows.push(row);
                        assert(vs(rows@) =~= prev_rows.push(row@));
                    }
                } else {
                    assert(rel.len() == 0);
                }
            }
        }
        i = i + 1;
    }
    (rows, direct)
}

/// Folder rows sorted by their lower-cased names.
fn sort_rows(rows: Vec<FolderRow>) -> (r: Vec<FolderRow>)
    ensures
        vs(r@) == stable_sort_by(vs(rows@), by_folder_name()),
{
    let mut keys: Vec<Vec<char>> = Vec::new();
    let mut i: usize = 0;
    while i < rows.len()
        invariant
            i <= rows@.len(),
            keys@.len() == i,
            forall|j: int| 0 <= j < i ==> (#[trigger] keys@[j])@ == by_folder_name()(rows@[j]@),
        decreases rows@.len() - i,
    {
        let lower = str_to_lowercase(&rows[i].name);
        keys.push(chars_of(&lower));
        i = i + 1;
    }
    sort_by_keys(rows, keys, Ghost(by_folder_name()))
}

/// Files sorted by their lower-cased file names.
fn sort_infos(files: Vec<MediaFileInfo>) -> (r: Vec<MediaFileInfo>)
    ensures
        vs(r@) == stable_sort_by(vs(files@), by_file_name()),
{
    let mut keys: Vec<Vec<char>> = Vec::new();
    let mut i: usize = 0;
    while i < files.len()
        invariant
            i <= files@.len(),
            keys@.len() == i,
            forall|j: int| 0 <= j < i ==> (#[trigger] keys@[j])@ == by_file_name()(files@[j]@),
        decreases files@.len() - i,
    {
        let lower = str_to_lowercase(&files[i].filename);
        keys.push(chars_of(&lower));
        i = i + 1;
    }
    sort_by_keys(files, keys, Ghost(by_file_name()))
}

/// Appends a folder entry for each row.
fn push_folders(entries: &mut Vec<LibraryEntry>, rows: Vec<FolderRow>)
    ensures
        final(entries)@.len() == old(entries)@.len() + rows@.len(),
        forall|i: int| 0 <= i < old(entries)@.len() ==> #[trigger] final(entries)@[i] == old(entries)@[i],
        forall|i: int| 0 <= i < rows@.len() ==> is_folder_entry(#[trigger] final(entries)@[old(entries)@.len() + i], rows@[i]@),
{
    let ghost start = entries@;
    let ghost rv = vs(rows@);
    let ghost n = rows@.len();
    let mut rows = rows;
    while rows.len() > 0
        invariant
            rows@.len() <= n,
            rv.len() == n,
            forall|i: int| 0 <= i < rows@.len() ==> #[trigger] rows@[i]@ == rv[n - rows@.len() + i],
            entries@.len() == start.len() + (n - rows@.len()),
            forall|i: int| 0 <= i < start.len() ==> #[trigger] entries@[i] == start[i],
            forall|i: int| 0 <= i < n - rows@.len() ==> is_folder_entry(#[trigger] entries@[start.len() + i], rv[i]),
        decreases rows@.len(),
    {
        let ghost before = rows@;
        let row = rows.remove(0);
        let ghost done = n - before.len();
        assert forall|i: int| 0 <= i < rows@.len() implies #[trigger] rows@[i]@ == rv[n - rows@.len() + i] by {
            assert(rows@[i] == before[i + 1]);
        }
        assert(row@ == rv[done]);
        let e = LibraryEntry::Folder { name: row.name, path: row.path, file_count: row.file_count };
        assert(is_folder_entry(e, rv[done]));
        entries.push(e);
        assert(entries@[start.len() + done] == e);
    }
}

/// Appends a file entry for each file.
fn push_files(entries: &mut Vec<LibraryEntry>, files: Vec<MediaFileInfo>)
    ensures
        final(entries)@.len() == old(entries)@.len() + files@.len(),
        forall|i: int| 0 <= i < old(entries)@.len() ==> #[trigger] final(entries)@[i] == old(entries)@[i],
        forall|i: int| 0 <= i < files@.len() ==> is_file_entry(#[trigger] final(entries)@[old(entries)@.len() + i], files@[i]@),
{
    let ghost start = entries@;
    let ghost fv = vs(files@);
    let ghost n = files@.len();
    let mut files = files;
    while files.len() > 0
        invariant
            files@.len() <= n,
            fv.len() == n,
            forall|i: int| 0 <= i < files@.len() ==> #[trigger] files@[i]@ == fv[n - files@.len() + i],
            entries@.len() == start.len() + (n - files@.len()),
            forall|i: int| 0 <= i < start.len() ==> #[trigger] entries@[i] == start[i],
            forall|i: int| 0 <= i < n - files@.len() ==> is_file_entry(#[trigger] entries@[start.len() + i], fv[i]),
        decreases files@.len(),
    {
        let ghost before = files@;
        let f = files.remove(0);
        let ghost done = n - before.len();
        assert forall|i: int| 0 <= i < files@.len() implies #[trigger] files@[i]@ == fv[n - files@.len() + i] by {
            assert(files@[i] == before[i + 1]);
        }
        assert(f@ == fv[done]);
        let e = LibraryEntry::File(f);
        entries.push(e);
        assert(entries@[start.len() + done] == e);
    }
}

/// The selection after the entries were rebuilt: kept while it points at an
/// entry, else the first entry, or none when there is none.
pub open spec fn reset_selection(selected: Option<usize>, len: nat) -> Option<usize> {
    match selected {
        Some(i) => if i >= len {
            if len == 0 { None } else { Some(0) }
        } else {
            Some(i)
        },
        None => if len > 0 { Some(0) } else { None },
    }
}

/// Some file lies below `p`.
pub open spec fn has_files_under(files: Seq<MediaFileInfo>, p: Seq<char>) -> bool {
    exists|i: int| 0 <= i < files.len() && path_starts_with(#[trigger] files[i].path@, p)
}

/// Where "go to parent" leads from `current`: its parent while files lie
/// below that, else the top level.
pub open spec fn parent_target(files: Seq<MediaFileInfo>, current: Seq<char>) -> Option<Seq<char>> {
    match parent_of(current) {
        Some(p) => if has_files_under(files, p) { Some(p) } else { None },
        None => None,
    }
}

/// The pieces joined with `/` between them.
pub open spec fn slash_joined(ps: Seq<Seq<char>>) -> Seq<char>
    decreases ps.len(),
{
    if ps.len() == 0 {
        Seq::empty()
    } else if ps.len() == 1 {
        ps[0]
    } else {
        slash_joined(ps.drop_last()) + seq!['/'] + ps.last()
    }
}

/// The breadcrumb shown above the library: `/` at the top level; inside a
/// folder its components, the last two only behind `/.../` when it has more.
pub open spec fn breadcrumb(current: Option<Seq<char>>) -> Seq<char> {
    match current {
        None => seq!['/'],
        Some(p) => {
            let cs = components(p);
            if cs.len() <= 2 {
                seq!['/'] + slash_joined(cs)
            } else {
                seq!['/', '.', '.', '.', '/'] + slash_joined(cs.skip(cs.len() - 2))
            }
        },
    }
}

/// The text of the pieces from `from` on, joined with `/`.
fn join_with_slash(ps: &[Vec<char>], from: usize) -> (r: String)
    requires
        from <= ps@.len(),
    ensures
        r@ == slash_joined(views(ps@).skip(from as int)),
{
    let mut r = String::new();
    let mut i: usize = from;
    let ghost v = views(ps@).skip(from as int);
    assert(v.take(0) =~= Seq::<Seq<char>>::empty());
    while i < ps.len()
        invariant
            from <= i <= ps@.len(),
            v == views(ps@).skip(from as int),
            r@ == slash_joined(v.take(i - from)),
        decreases ps@.len() - i,
    {
        assert(v.take(i - from + 1).drop_last() =~= v.take(i - from));
        assert(v.take(i - from + 1).last() == ps@[i as int]@);
        if i > from {
            crate::text::push_char(&mut r, '/');
        } else {
            assert(r@ =~= Seq::<char>::empty());
        }
        crate::text::push_chars(&mut r, ps[i].as_slice());
        proof {
            if i == from {
                assert(r@ =~= v.take(1)[0]);
            }
        }
        i = i + 1;
    }
    assert(v.take(ps@.len() - from) =~= v);
    r
}

/// Entering the selected entry: where it is a folder, the view moves into
/// it, with the first entry selected; otherwise nothing changes.
pub open spec fn entered_folder(l0: LibraryState, l1: LibraryState, r: bool) -> bool {
    &&& l1.wf()
    &&& r == (l0.selected_entry() matches Some(LibraryEntry::Folder { .. }))
    &&& !r ==> l1 == l0
    &&& r ==> l1.media_files == l0.media_files && l1.roots == l0.roots
        && (l0.selected_entry() matches Some(LibraryEntry::Folder { path, .. }) && l1.folder() == Some(path@))
        && l1.shows_current()
        && l1.selected_library == reset_selection(Some(0usize), l1.library_entries@.len())
}

/// Going up from a folder: to its parent while files lie below that, else
/// to the top level, with the first entry selected; at the top level
/// nothing changes.
pub open spec fn went_to_parent(l0: LibraryState, l1: LibraryState, r: bool) -> bool {
    &&& l1.wf()
    &&& r == l0.current_folder is Some
    &&& !r ==> l1 == l0
    &&& r ==> l1.media_files == l0.media_files && l1.roots == l0.roots
        && l1.folder() == parent_target(l0.media_files@, l0.current_folder->Some_0@)
        && l1.shows_current()
        && l1.selected_library == reset_selection(Some(0usize), l1.library_entries@.len())
}

/// What the library panel of the terminal interface shows: the files of
/// the daemon's library, the folder being browsed, its entries and the
/// selected entry.
pub struct LibraryState {
    pub media_files: Vec<MediaFileInfo>,
    /// For each file, the top-level folder that holds it where it lies
    /// below one (found on disk by the caller).
    pub roots: Vec<Option<String>>,
    pub current_folder: Option<String>,
    pub library_entries: Vec<LibraryEntry>,
    pub selected_library: Option<usize>,
}

impl LibraryState {
    /// A top-level folder is known for each file or for none.
    pub open spec fn wf(&self) -> bool {
        self.roots@.len() == self.media_files@.len()
    }

    /// The folder being browsed, as a path.
    pub open spec fn folder(&self) -> Option<Seq<char>> {
        match self.current_folder {
            Some(c) => Some(c@),
            None => None,
        }
    }

    /// The entries are those of the browsed folder.
    pub open spec fn shows_current(&self) -> bool {
        shows(self.library_entries@, listing(self.media_files@, self.roots@, self.folder()))
    }

    /// The entry the selection points at.
    pub open spec fn selected_entry(&self) -> Option<LibraryEntry> {
        match self.selected_library {
            Some(i) => if i < self.library_entries@.len() { Some(self.library_entries@[i as int]) } else { None },
            None => None,
        }
    }

    /// An empty library at the top level, the first entry selected.
    pub fn new() -> (r: LibraryState)
        ensures
            r.wf(),
            r.media_files@.len() == 0,
            r.current_folder is None,
            r.library_entries@.len() == 0,
            r.selected_library == Some(0usize),
    {
        LibraryState {
            media_files: Vec::new(),
            roots: Vec::new(),
            current_folder: None,
            library_entries: Vec::new(),
            selected_library: Some(0),
        }
    }

    /// Get the currently selected library entry
    pub fn selected_library_entry(&self) -> (r: Option<&LibraryEntry>)
        ensures
            match r {
                Some(e) => self.selected_entry() == Some(*e),
                None => self.selected_entry() is None,
            },
    {
        match self.selected_library {
            Some(i) => if i < self.library_entries.len() { Some(&self.library_entries[i]) } else { None },
            None => None,
        }
    }

    /// The daemon's library was read: take its files (with the top-level
    /// folder of each) and rebuild the entries.
    pub fn set_media_files(&mut self, files: Vec<MediaFileInfo>, roots: Vec<Option<String>>)
        requires
            roots@.len() == files@.len(),
        ensures
            final(self).wf(),
            final(self).media_files@ == files@,
            final(self).roots@ == roots@,
            final(self).current_folder == old(self).current_folder,
            final(self).shows_current(),
            final(self).selected_library == reset_selection(old(self).selected_library, final(self).library_entries@.len()),
    {
        self.media_files = files;
        self.roots = roots;
        self.build_library_entries();
    }

    /// Navigate into the selected folder
    pub fn enter_selected_folder(&mut self) -> (r: bool)
        requires
            old(self).wf(),
        ensures
            entered_folder(*old(self), *final(self), r),
    {
        let target: Option<String> = match self.selected_library_entry() {
            Some(LibraryEntry::Folder { path, .. }) => Some(path.clone()),
            _ => None,
        };
        match target {
            Some(path) => {
                self.current_folder = Some(path);
                self.selected_library = Some(0);
                self.build_library_entries();
                true
            },
            None => false,
        }
    }

    /// Go back to parent folder (or root if already at top level)
    pub fn go_parent_folder(&mut self) -> (r: bool)
        requires
            old(self).wf(),
        ensures
            went_to_parent(*old(self), *final(self), r),
    {
        let current: String = match &self.current_folder {
            Some(c) => c.clone(),
            None => {
                return false;
            },
        };
        match path_parent(current.as_str()) {
            Some(parent) => {
                if self.any_file_under(parent.as_str()) {
                    self.current_folder = Some(parent);
                } else {
                    self.current_folder = None;
                }
            },
            None => {
                self.current_folder = None;
            },
        }
        self.selected_library = Some(0);
        self.build_library_entries();
        true
    }

    /// Whether some file lies below `p`.
    fn any_file_under(&self, p: &str) -> (r: bool)
        ensures
            r == has_files_under(self.media_files@, p@),
    {
        let mut i: usize = 0;
        while i < self.media_files.len()
            invariant
                i <= self.media_files@.len(),
                forall|k: int| 0 <= k < i ==> !path_starts_with(#[trigger] self.media_files@[k].path@, p@),
            decreases self.media_files@.len() - i,
        {
            if str_path_starts_with(&self.media_files[i].path, p) {
                return true;
            }
            i = i + 1;
        }
        false
    }

    /// Get breadcrumb path for display
    pub fn library_breadcrumb(&self) -> (r: String)
        ensures
            r@ == breadcrumb(self.folder()),
    {
        match &self.current_folder {
            None => {
                let mut r = String::new();
                crate::text::push_char(&mut r, '/');
                assert(r@ =~= seq!['/']);
                r
            },
            Some(path) => {
                let cs = path_components(chars_of(path.as_str()).as_slice());
                let ghost v = views(cs@);
                assert(v.len() == cs@.len());
                let mut r = String::new();
                if cs.len() <= 2 {
                    crate::text::push_char(&mut r, '/');
                    let j = join_with_slash(cs.as_slice(), 0);
                    assert(v.skip(0) =~= v);
                    crate::text::push_str(&mut r, j.as_str());
                    assert(r@ =~= seq!['/'] + slash_joined(v));
                } else {
                    crate::text::push_char(&mut r, '/');
                    crate::text::push_char(&mut r, '.');
                    crate::text::push_char(&mut r, '.');
                    crate::text::push_char(&mut r, '.');
                    crate::text::push_char(&mut r, '/');
                    let k = cs.len() - 2;
                    let j = join_with_slash(cs.as_slice(), k);
                    crate::text::push_str(&mut r, j.as_str());
                    assert(r@ =~= seq!['/', '.', '.', '.', '/'] + slash_joined(v.skip(v.len() - 2)));
                }
                r
            },
        }
    }

    /// Check if currently selected entry is a folder
    pub fn is_selected_folder(&self) -> (r: bool)
        ensures
            r == (self.selected_entry() matches Some(LibraryEntry::Folder { .. })),
    {
        match self.selected_library_entry() {
            Some(LibraryEntry::Folder { .. }) => true,
            _ => false,
        }
    }

    /// Get selected file (if a file is selected, not a folder)
    pub fn selected_file(&self) -> (r: Option<&MediaFileInfo>)
        ensures
            match r {
                Some(f) => self.selected_entry() == Some(LibraryEntry::File(*f)),
                None => !(self.selected_entry() matches Some(LibraryEntry::File(_))),
            },
    {
        match self.selected_library_entry() {
            Some(LibraryEntry::File(file)) => Some(file),
            _ => None,
        }
    }

    /// Rebuild library_entries based on current_folder and media_files
    pub fn build_library_entries(&mut self)
        requires
            old(self).wf(),
        ensures
            final(self).wf(),
            final(self).media_files == old(self).media_files,
            final(self).roots == old(self).roots,
            final(self).current_folder == old(self).current_folder,
            final(self).shows_current(),
            final(self).selected_library == reset_selection(old(self).selected_library, final(self).library_entries@.len()),
    {
        let mut entries: Vec<LibraryEntry> = Vec::new();
        match &self.current_folder {
            None => {
                let rows = top_level_rows(&self.media_files, &self.roots);
                let sorted = sort_rows(rows);
                let ghost sv = vs(sorted@);
                push_folders(&mut entries, sorted);
                let ghost l = listing(self.media_files@, self.roots@, self.folder());
                assert(l.0 == sv && l.1 =~= Seq::<InfoView>::empty());
                assert forall|i: int| 0 <= i < l.0.len() implies is_folder_entry(#[trigger] entries@[i], l.0[i]) by {
                    assert(entries@[0 + i] == entries@[i]);
                }
                assert(shows(entries@, l));
            },
            Some(current) => {
                let (rows, direct) = inside_rows(&self.media_files, current.as_str());
                let sorted = sort_rows(rows);
                let ghost n = sorted@.len();
                let ghost sv = vs(sorted@);
                push_folders(&mut entries, sorted);
                let ghost mid = entries@;
                let files = sort_infos(direct);
                let ghost fv = vs(files@);
                push_files(&mut entries, files);
                let ghost l = listing(self.media_files@, self.roots@, self.folder());
                assert(l.0 == sv && l.1 == fv);
                assert forall|i: int| 0 <= i < l.0.len() implies is_folder_entry(#[trigger] entries@[i], l.0[i]) by {
                    assert(entries@[i] == mid[i]);
                    assert(mid[0 + i] == mid[i]);
                }
                assert(shows(entries@, l));
            },
        }
        self.library_entries = entries;
        let len = self.library_entries.len();
        match self.selected_library {
            Some(i) => {
                if i >= len {
                    self.selected_library = if len == 0 { None } else { Some(0) };
                }
            },
            None => {
                if len > 0 {
                    self.selected_library = Some(0);
                }
            },
        }
    }
}

/// No item's key is smaller than the key of the item before it.
pub open spec fn sorted_by<A>(s: Seq<A>, key: spec_fn(A) -> Seq<char>) -> bool {
    forall|i: int| 0 < i < s.len() ==> !text_lt(key(#[trigger] s[i]), key(s[i - 1]))
}

proof fn lemma_text_lt_asym(a: Seq<char>, b: Seq<char>)
    ensures
        text_lt(a, b) ==> !text_lt(b, a),
    decreases a.len(),
{
    if a.len() > 0 && b.len() > 0 && a[0] == b[0] {
        lemma_text_lt_asym(a.drop_first(), b.drop_first());
    }
}

proof fn lemma_insert_by<A>(sorted: Seq<A>, e: A, key: spec_fn(A) -> Seq<char>)
    requires
        sorted_by(sorted, key),
    ensures
        sorted_by(insert_by(sorted, e, key), key),
        insert_by(sorted, e, key).to_multiset() == sorted.to_multiset().insert(e),
        insert_by(sorted, e, key).len() == sorted.len() + 1,
        insert_by(sorted, e, key).last() == e || (sorted.len() > 0 && insert_by(sorted, e, key).last() == sorted.last()),
    decreases sorted.len(),
{
    broadcast use vstd::seq_lib::group_to_multiset_ensures, vstd::multiset::group_multiset_axioms;
    let r = insert_by(sorted, e, key);
    if sorted.len() == 0 {
        assert(seq![e] =~= Seq::<A>::empty().push(e));
        assert(sorted =~= Seq::<A>::empty());
    } else if text_lt(key(e), key(sorted.last())) {
        let d = sorted.drop_last();
        assert(sorted_by(d, key)) by {
            assert forall|i: int| 0 < i < d.len() implies !text_lt(key(#[trigger] d[i]), key(d[i - 1])) by {
                assert(d[i] == sorted[i] && d[i - 1] == sorted[i - 1]);
            }
        }
        lemma_insert_by(d, e, key);
        let r1 = insert_by(d, e, key);
        assert(r == r1.push(sorted.last()));
        lemma_text_lt_asym(key(e), key(sorted.last()));
        if r1.last() != e {
            assert(sorted[sorted.len() - 1] == sorted.last());
            assert(d.last() == sorted[sorted.len() - 2]);
        }
        assert forall|i: int| 0 < i < r.len() implies !text_lt(key(#[trigger] r[i]), key(r[i - 1])) by {
            if i < r.len() - 1 {
                assert(r[i] == r1[i] && r[i - 1] == r1[i - 1]);
            } else {
                assert(r[i - 1] == r1.last());
            }
        }
        assert(sorted =~= d.push(sorted.last()));
        assert(r.to_multiset() =~= sorted.to_multiset().insert(e));
    } else {
        assert forall|i: int| 0 < i < r.len() implies !text_lt(key(#[trigger] r[i]), key(r[i - 1])) by {
            if i < r.len() - 1 {
                assert(r[i] == sorted[i] && r[i - 1] == sorted[i - 1]);
            }
        }
    }
}

proof fn lemma_stable_sort_by<A>(s: Seq<A>, key: spec_fn(A) -> Seq<char>)
    ensures
        sorted_by(stable_sort_by(s, key), key),
        stable_sort_by(s, key).to_multiset() == s.to_multiset(),
    decreases s.len(),
{
    broadcast use vstd::seq_lib::group_to_multiset_ensures, vstd::multiset::group_multiset_axioms;
    if s.len() == 0 {
        assert(stable_sort_by(s, key) =~= s);
    } else {
        lemma_stable_sort_by(s.drop_last(), key);
        lemma_insert_by(stable_sort_by(s.drop_last(), key), s.last(), key);
        assert(s =~= s.drop_last().push(s.last()));
    }
}

/// The library view lists its folders, and its files, each in order of their
/// lower-cased names; and it lists exactly the folders and files that the
/// browsed folder holds, each as often as it holds it.
pub proof fn listing_is_sorted(files: Seq<MediaFileInfo>, roots: Seq<Option<String>>, current: Option<Seq<char>>)
    ensures
        sorted_by(listing(files, roots, current).0, by_folder_name()),
        sorted_by(listing(files, roots, current).1, by_file_name()),
        listing(files, roots, current).0.to_multiset() == (match current {
            None => root_folders(files, roots, files.len()),
            Some(c) => inside_folder(files, c, files.len()).0,
        }).to_multiset(),
        listing(files, roots, current).1.to_multiset() == (match current {
            None => Seq::<InfoView>::empty(),
            Some(c) => inside_folder(files, c, files.len()).1,
        }).to_multiset(),
{
    match current {
        None => {
            lemma_stable_sort_by(root_folders(files, roots, files.len()), by_folder_name());
        },
        Some(c) => {
            lemma_stable_sort_by(inside_folder(files, c, files.len()).0, by_folder_name());
            lemma_stable_sort_by(inside_folder(files, c, files.len()).1, by_file_name());
        },
    }
}

/// The file is listed directly inside `c`.
pub open spec fn listed_in(f: MediaFileInfo, c: Seq<char>) -> bool {
    path_starts_with(f.path@, c) && lies_in(f, c)
}

proof fn lemma_inside_folder(files: Seq<MediaFileInfo>, c: Seq<char>, n: nat)
    requires
        n <= files.len(),
    ensures
        forall|k: int| 0 <= k < inside_folder(files, c, n).0.len()
            ==> (#[trigger] inside_folder(files, c, n).0[k]).2 == count_under(files, inside_folder(files, c, n).0[k].1),
        forall|x: InfoView| inside_folder(files, c, n).1.contains(x)
            ==> exists|j: int| 0 <= j < n && (#[trigger] files[j])@ == x && listed_in(files[j], c),
        forall|j: int| 0 <= j < n && listed_in(#[trigger] files[j], c) ==> inside_folder(files, c, n).1.contains(files[j]@),
    decreases n,
{
    if n > 0 {
        lemma_inside_folder(files, c, (n - 1) as nat);
        let prev = inside_folder(files, c, (n - 1) as nat);
        let cur = inside_folder(files, c, n);
        let f = files[n - 1];
        assert forall|x: InfoView| cur.1.contains(x) implies exists|j: int| 0 <= j < n && (#[trigger] files[j])@ == x && listed_in(files[j], c) by {
            if prev.1.contains(x) {
                let j = choose|j: int| 0 <= j < n - 1 && (#[trigger] files[j])@ == x && listed_in(files[j], c);
                assert(0 <= j < n && files[j]@ == x && listed_in(files[j], c));
            } else {
                assert(cur.1 != prev.1);
                assert(cur.1 == prev.1.push(f@));
                let k = choose|k: int| 0 <= k < cur.1.len() && cur.1[k] == x;
                if k < prev.1.len() {
                    assert(prev.1[k] == x);
                    assert(prev.1.contains(x));
                }
                assert(files[n - 1]@ == x && listed_in(files[n - 1], c));
            }
        }
        assert forall|j: int| 0 <= j < n && listed_in(#[trigger] files[j], c) implies cur.1.contains(files[j]@) by {
            if j < n - 1 {
                assert(prev.1.contains(files[j]@));
                let k = choose|k: int| 0 <= k < prev.1.len() && prev.1[k] == files[j]@;
                if cur.1 != prev.1 {
                    assert(cur.1 == prev.1.push(f@));
                    assert(cur.1[k] == files[j]@);
                }
            } else {
                assert(cur.1 == prev.1.push(f@));
                assert(cur.1[cur.1.len() - 1] == f@);
            }
        }
        assert forall|k: int| 0 <= k < cur.0.len() implies (#[trigger] cur.0[k]).2 == count_under(files, cur.0[k].1) by {
            if k < prev.0.len() && cur.0 != prev.0 {
                assert(cur.0[k] == prev.0[k]);
            } else if cur.0 != prev.0 && k == prev.0.len() {
            } else {
                assert(cur.0[k] == prev.0[k]);
            }
        }
    }
}

/// Inside a folder, the files listed are exactly those lying directly in
/// it, and each subfolder listed shows the number of library files below it.
pub proof fn folder_contents_listed(files: Seq<MediaFileInfo>, roots: Seq<Option<String>>, c: Seq<char>)
    ensures
        forall|k: int| 0 <= k < listing(files, roots, Some(c)).0.len()
            ==> (#[trigger] listing(files, roots, Some(c)).0[k]).2 == count_under(files, listing(files, roots, Some(c)).0[k].1),
        forall|x: InfoView| listing(files, roots, Some(c)).1.contains(x)
            <==> exists|j: int| 0 <= j < files.len() && (#[trigger] files[j])@ == x && listed_in(files[j], c),
{
    broadcast use vstd::seq_lib::group_to_multiset_ensures;
    listing_is_sorted(files, roots, Some(c));
    lemma_inside_folder(files, c, files.len());
    let l = listing(files, roots, Some(c));
    let inside = inside_folder(files, c, files.len());
    assert forall|k: int| 0 <= k < l.0.len() implies (#[trigger] l.0[k]).2 == count_under(files, l.0[k].1) by {
        assert(l.0.contains(l.0[k]));
        assert(l.0.to_multiset().count(l.0[k]) > 0);
        assert(inside.0.contains(l.0[k]));
        let m = choose|m: int| 0 <= m < inside.0.len() && inside.0[m] == l.0[k];
        assert(inside.0[m].2 == count_under(files, inside.0[m].1));
    }
    assert forall|x: InfoView| l.1.contains(x)
        <==> exists|j: int| 0 <= j < files.len() && (#[trigger] files[j])@ == x && listed_in(files[j], c) by {
        assert(l.1.contains(x) <==> l.1.to_multiset().count(x) > 0);
        assert(inside.1.contains(x) <==> inside.1.to_multiset().count(x) > 0);
        if exists|j: int| 0 <= j < files.len() && (#[trigger] files[j])@ == x && listed_in(files[j], c) {
            let j = choose|j: int| 0 <= j < files.len() && (#[trigger] files[j])@ == x && listed_in(files[j], c);
            assert(inside.1.contains(files[j]@));
        }
    }
}

/// After the entries are rebuilt the selection points at one of them, and
/// it is empty only when there is no entry.
pub proof fn rebuilt_selection_points_at_entry(selected: Option<usize>, len: nat)
    ensures
        reset_selection(selected, len) matches Some(i) ==> i < len,
        reset_selection(selected, len) is None <==> len == 0,
{
}

} // verus!
