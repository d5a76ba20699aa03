//! The metadata cache: what is stored for a file, keyed by its path, size and
//! modification time. The store itself is SQLite, driven by the caller; this
//! module holds the records, the column conversions and the cache's rules.

use vstd::prelude::*;
use crate::paths::{join_path, path_join};
use crate::types::str_eq;

verus! {

/// Schema version - increment when changing table structure
pub const SCHEMA_VERSION: i32 = 1;

/// SQL schema for metadata cache
pub const SCHEMA: &'static str = "
CREATE TABLE IF NOT EXISTS schema_version (
    version INTEGER PRIMARY KEY
);

CREATE TABLE IF NOT EXISTS metadata_cache (
    file_path TEXT PRIMARY KEY,
    file_size INTEGER NOT NULL,
    mtime INTEGER NOT NULL,
    duration_ms INTEGER,
    width INTEGER,
    height INTEGER,
    video_codec TEXT,
    audio_codec TEXT,
    title TEXT,
    artist TEXT,
    album TEXT,
    year INTEGER,
    cached_at INTEGER NOT NULL
);

CREATE INDEX IF NOT EXISTS idx_mtime ON metadata_cache(mtime);
";

/// Cached metadata for a media file
#[derive(Debug)]
pub struct CachedMetadata {
    /// Duration in milliseconds
    pub duration: Option<u64>,
    pub width: Option<u32>,
    pub height: Option<u32>,
    pub video_codec: Option<String>,
    pub audio_codec: Option<String>,
    pub title: Option<String>,
    pub artist: Option<String>,
    pub album: Option<String>,
    pub year: Option<u32>,
}

pub open spec fn os(o: Option<String>) -> Option<Seq<char>> {
    match o {
        Some(s) => Some(s@),
        None => None,
    }
}

/// Cached metadata as plain values.
pub type CachedView = (
    Option<u64>,
    Option<u32>,
    Option<u32>,
    Option<Seq<char>>,
    Option<Seq<char>>,
    Option<Seq<char>>,
    Option<Seq<char>>,
    Option<Seq<char>>,
    Option<u32>,
);

impl View for CachedMetadata {
    type V = CachedView;

    open spec fn view(&self) -> CachedView {
        (self.duration, self.width, self.height, os(self.video_codec), os(self.audio_codec), os(self.title),
            os(self.artist), os(self.album), self.year)
    }
}

/// Cache statistics
#[derive(Debug, Clone, Copy)]
pub struct CacheStats {
    pub entries: usize,
}

/// The statistics of a cache whose table counts `count` rows.
pub fn cache_stats(count: i64) -> (r: CacheStats)
    ensures
        r.entries == count as usize,
{
    CacheStats { entries: #[verifier::truncate] (count as usize) }
}

/// The columns of a cache row that hold numbers: duration (milliseconds),
/// width, height and year, as SQLite integers.
pub type NumberColumns = (Option<i64>, Option<i64>, Option<i64>, Option<i64>);

/// The number columns stored for cached metadata.
pub open spec fn number_columns_of(m: CachedView) -> NumberColumns {
    (
        match m.0 { Some(d) => Some(d as i64), None => None },
        match m.1 { Some(w) => Some(w as i64), None => None },
        match m.2 { Some(h) => Some(h as i64), None => None },
        match m.8 { Some(y) => Some(y as i64), None => None },
    )
}

/// The number columns to store for cached metadata.
pub fn number_columns(m: &CachedMetadata) -> (r: NumberColumns)
    ensures
        r == number_columns_of(m@),
{
    (
        match m.duration { Some(d) => Some(#[verifier::truncate] (d as i64)), None => None },
        match m.width { Some(w) => Some(w as i64), None => None },
        match m.height { Some(h) => Some(h as i64), None => None },
        match m.year { Some(y) => Some(y as i64), None => None },
    )
}

/// The metadata a stored row holds.
pub open spec fn cached_of_row(n: NumberColumns, texts: (Option<Seq<char>>, Option<Seq<char>>, Option<Seq<char>>, Option<Seq<char>>, Option<Seq<char>>)) -> CachedView {
    (
        match n.0 { Some(d) => Some(d as u64), None => None },
        match n.1 { Some(w) => Some(w as u32), None => None },
        match n.2 { Some(h) => Some(h as u32), None => None },
        texts.0, texts.1, texts.2, texts.3, texts.4,
        match n.3 { Some(y) => Some(y as u32), None => None },
    )
}

/// The metadata read back from a stored row: the number columns, then the
/// video codec, audio codec, title, artist and album.
pub fn cached_from_row(
    n: NumberColumns,
    video_codec: Option<String>,
    audio_codec: Option<String>,
    title: Option<String>,
    artist: Option<String>,
    album: Option<String>,
) -> (r: CachedMetadata)
    ensures
        r@ == cached_of_row(n, (os(video_codec), os(audio_codec), os(title), os(artist), os(album))),
{
    CachedMetadata {
        duration: match n.0 { Some(d) => Some(#[verifier::truncate] (d as u64)), None => None },
        width: match n.1 { Some(w) => Some(#[verifier::truncate] (w as u32)), None => None },
        height: match n.2 { Some(h) => Some(#[verifier::truncate] (h as u32)), None => None },
        video_codec,
        audio_codec,
        title,
        artist,
        album,
        year: match n.3 { Some(y) => Some(#[verifier::truncate] (y as u32)), None => None },
    }
}

/// What is stored is what is read back: storing metadata and reading its row
/// gives the same metadata, for every duration that a row can hold.
pub proof fn stored_metadata_reads_back(m: CachedView)
    requires
        m.0 matches Some(d) ==> d <= i64::MAX,
    ensures
        cached_of_row(number_columns_of(m), (m.3, m.4, m.5, m.6, m.7)) == m,
{
}

/// Whether the cache tables must be (re)created: the stored schema version is
/// missing or another.
pub fn needs_schema_init(current_version: Option<i32>) -> (r: bool)
    ensures
        r == (match current_version {
            Some(v) => v != SCHEMA_VERSION,
            None => true,
        }),
{
    match current_version {
        Some(v) => v != SCHEMA_VERSION,
        None => true,
    }
}

/// The paths among `cached` that are not among `existing`, in order.
pub open spec fn stale_of(cached: Seq<Seq<char>>, existing: Seq<Seq<char>>) -> Seq<Seq<char>>
    decreases cached.len(),
{
    if cached.len() == 0 {
        Seq::empty()
    } else if existing.contains(cached.last()) {
        stale_of(cached.drop_last(), existing)
    } else {
        stale_of(cached.drop_last(), existing).push(cached.last())
    }
}

fn contains_string(v: &Vec<String>, s: &str) -> (r: bool)
    ensures
        r == v@.map_values(|x: String| x@).contains(s@),
{
    let ghost vs = v@.map_values(|x: String| x@);
    let mut i: usize = 0;
    while i < v.len()
        invariant
            vs == v@.map_values(|x: String| x@),
            i <= v@.len(),
            forall|j: int| 0 <= j < i ==> vs[j] != s@,
        decreases v@.len() - i,
    {
        if str_eq(v[i].as_str(), s) {
            assert(vs[i as int] == s@);
            return true;
        }
        i = i + 1;
    }
    false
}

/// Remove stale entries: the cached paths of files that no longer exist.
pub fn stale_paths(cached: &Vec<String>, existing: &Vec<String>) -> (r: Vec<String>)
    ensures
        r@.map_values(|x: String| x@) == stale_of(cached@.map_values(|x: String| x@), existing@.map_values(|x: String| x@)),
{
    let ghost cv = cached@.map_values(|x: String| x@);
    let ghost ev = existing@.map_values(|x: String| x@);
    let mut r: Vec<String> = Vec::new();
    let mut i: usize = 0;
    while i < cached.len()
        invariant
            cv == cached@.map_values(|x: String| x@),
            ev == existing@.map_values(|x: String| x@),
            i <= cached@.len(),
            r@.map_values(|x: String| x@) == stale_of(cv.take(i as int), ev),
        decreases cached@.len() - i,
    {
        let ghost t = cv.take(i as int + 1);
        assert(t.drop_last() =~= cv.take(i as int));
        assert(t.last() == cached@[i as int]@);
        if !contains_string(existing, cached[i].as_str()) {
            let ghost before = r@;
            r.push(cached[i].clone());
            assert(r@.map_values(|x: String| x@) =~= before.map_values(|x: String| x@).push(cached@[i as int]@));
        }
        i = i + 1;
    }
    assert(cv.take(cached@.len() as int) =~= cv);
    r
}

/// Get the default cache path: `<cache dir>/com.flingdlna/metadata.db`, below
/// the current directory where there is no cache directory.
pub fn default_cache_path(cache_dir: Option<&str>) -> (r: String)
    ensures
        r@ == join_path(join_path(match cache_dir {
            Some(d) => d@,
            None => "."@,
        }, "com.flingdlna"@), "metadata.db"@),
{
    proof {
        reveal_strlit("com.flingdlna");
        reveal_strlit("metadata.db");
    }
    let base = match cache_dir {
        Some(d) => d,
        None => ".",
    };
    let dir = path_join(base, "com.flingdlna");
    path_join(dir.as_str(), "metadata.db")
}

/// A modification time in whole seconds since the Unix epoch, as the cache
/// keys it.
pub fn mtime_key(secs: u64) -> (r: i64)
    ensures
        r == secs as i64,
{
    #[verifier::truncate] (secs as i64)
}

} // verus!
