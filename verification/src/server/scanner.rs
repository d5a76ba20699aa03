//! Which files the scanner takes, how they are grouped, and how cached
//! metadata goes into and out of a media file. Walking directories and reading
//! files is left to the caller.

use vstd::prelude::*;
use std::hash::{BuildHasher, BuildHasherDefault};
use std::collections::hash_map::DefaultHasher;
use crate::paths::{extension, path_extension};
use crate::server::cache::{CachedMetadata, os};
use crate::text::{hex_lower, push_hex, push_str};
use crate::types::{MediaFile, clone_opt_string, lowercase, str_eq, str_to_lowercase};

verus! {

/// Supported video extensions
pub open spec fn is_video_ext(e: Seq<char>) -> bool {
    e == "mp4"@ || e == "mkv"@ || e == "avi"@ || e == "mov"@ || e == "wmv"@ || e == "flv"@ || e == "webm"@
        || e == "m4v"@ || e == "3gp"@ || e == "mpg"@ || e == "mpeg"@ || e == "ts"@ || e == "m2ts"@
}

/// Supported audio extensions
pub open spec fn is_audio_ext(e: Seq<char>) -> bool {
    e == "mp3"@ || e == "flac"@ || e == "wav"@ || e == "aac"@ || e == "ogg"@ || e == "wma"@ || e == "m4a"@
        || e == "opus"@ || e == "aiff"@
}

/// Supported image extensions (the watcher does not take `svg`)
pub open spec fn is_image_ext(e: Seq<char>, with_svg: bool) -> bool {
    e == "jpg"@ || e == "jpeg"@ || e == "png"@ || e == "gif"@ || e == "bmp"@ || e == "tiff"@ || e == "webp"@
        || (with_svg && e == "svg"@)
}

/// Whether a path names a media file by its extension, lower-cased.
pub open spec fn media_by_extension(path: Seq<char>, with_svg: bool) -> bool {
    match extension(path) {
        None => false,
        Some(e) => {
            let l = lowercase(e);
            is_video_ext(l) || is_audio_ext(l) || is_image_ext(l, with_svg)
        },
    }
}

pub fn video_ext(e: &str) -> (r: bool)
    ensures
        r == is_video_ext(e@),
{
    str_eq(e, "mp4") || str_eq(e, "mkv") || str_eq(e, "avi") || str_eq(e, "mov") || str_eq(e, "wmv")
        || str_eq(e, "flv") || str_eq(e, "webm") || str_eq(e, "m4v") || str_eq(e, "3gp") || str_eq(e, "mpg")
        || str_eq(e, "mpeg") || str_eq(e, "ts") || str_eq(e, "m2ts")
}

pub fn audio_ext(e: &str) -> (r: bool)
    ensures
        r == is_audio_ext(e@),
{
    str_eq(e, "mp3") || str_eq(e, "flac") || str_eq(e, "wav") || str_eq(e, "aac") || str_eq(e, "ogg")
        || str_eq(e, "wma") || str_eq(e, "m4a") || str_eq(e, "opus") || str_eq(e, "aiff")
}

pub fn image_ext(e: &str, with_svg: bool) -> (r: bool)
    ensures
        r == is_image_ext(e@, with_svg),
{
    str_eq(e, "jpg") || str_eq(e, "jpeg") || str_eq(e, "png") || str_eq(e, "gif") || str_eq(e, "bmp")
        || str_eq(e, "tiff") || str_eq(e, "webp") || (with_svg && str_eq(e, "svg"))
}

/// Whether a path names a media file by its extension.
pub fn media_extension(path: &str, with_svg: bool) -> (r: bool)
    ensures
        r == media_by_extension(path@, with_svg),
{
    match path_extension(path) {
        None => false,
        Some(e) => {
            let l = str_to_lowercase(e.as_str());
            video_ext(l.as_str()) || audio_ext(l.as_str()) || image_ext(l.as_str(), with_svg)
        },
    }
}

/// Check if a file extension is a supported media type
pub fn is_supported_media(path: &str) -> (r: bool)
    ensures
        r == media_by_extension(path@, true),
{
    media_extension(path, true)
}

/// What `Path::parent` gives for a path.
pub uninterp spec fn parent_of(path: Seq<char>) -> Option<Seq<char>>;

/// The parent of a path (`Path::parent`).
#[verifier::external_body]
pub(crate) fn path_parent(path: &str) -> (r: Option<String>)
    ensures
        match r {
            Some(p) => parent_of(path@) == Some(p@),
            None => parent_of(path@) is None,
        },
{
    std::path::Path::new(path).parent().map(|p| p.to_string_lossy().into_owned())
}

/// What `DefaultHasher::new()` gives for a `Path` (hashed by its components).
pub uninterp spec fn path_hash(path: Seq<char>) -> u64;

/// Simple path hashing for generating IDs (a `Path` hashed with a fresh
/// `DefaultHasher`).
#[verifier::external_body]
pub(crate) fn hash_path(path: &str) -> (r: u64)
    ensures
        r == path_hash(path@),
{
    BuildHasherDefault::<DefaultHasher>::default().hash_one(std::path::Path::new(path))
}

/// The id of the directory a file lies in: `dir_` and the hash of the parent
/// in hexadecimal, or `0` for a path without a parent.
pub open spec fn parent_id_of(path: Seq<char>) -> Seq<char> {
    match parent_of(path) {
        Some(p) => "dir_"@ + hex_lower(path_hash(p) as nat),
        None => "0"@,
    }
}

/// The container id of the directory a file lies in.
pub fn parent_id(path: &str) -> (r: String)
    ensures
        r@ == parent_id_of(path@),
{
    match path_parent(path) {
        Some(p) => {
            let mut r = String::new();
            push_str(&mut r, "dir_");
            push_hex(&mut r, hash_path(p.as_str()));
            r
        },
        None => String::from_str("0"),
    }
}

/// Apply cached metadata to a MediaFile
pub fn apply_cached_metadata(file: &mut MediaFile, cached: &CachedMetadata)
    ensures
        final(file).duration == cached.duration,
        final(file).resolution == (match (cached.width, cached.height) {
            (Some(w), Some(h)) => Some((w, h)),
            _ => None,
        }),
        os(final(file).video_codec) == os(cached.video_codec),
        os(final(file).audio_codec) == os(cached.audio_codec),
        os(final(file).title) == (if cached.title is Some { os(cached.title) } else { os(old(file).title) }),
        os(final(file).artist) == os(cached.artist),
        os(final(file).album) == os(cached.album),
        final(file).year == cached.year,
        final(file).id == old(file).id && final(file).path == old(file).path,
        final(file).filename == old(file).filename && final(file).mime_type == old(file).mime_type,
        final(file).media_type == old(file).media_type && final(file).size == old(file).size,
        final(file).parent_id == old(file).parent_id,
{
    file.duration = cached.duration;
    file.resolution = match (cached.width, cached.height) {
        (Some(w), Some(h)) => Some((w, h)),
        _ => None,
    };
    file.video_codec = clone_opt_string(&cached.video_codec);
    file.audio_codec = clone_opt_string(&cached.audio_codec);
    if cached.title.is_some() {
        file.title = clone_opt_string(&cached.title);
    }
    file.artist = clone_opt_string(&cached.artist);
    file.album = clone_opt_string(&cached.album);
    file.year = cached.year;
}

/// Extract metadata from MediaFile into CachedMetadata
pub fn extract_to_cached(file: &MediaFile) -> (r: CachedMetadata)
    ensures
        r.duration == file.duration,
        r.width == (match file.resolution {
            Some((w, _)) => Some(w),
            None => None,
        }),
        r.height == (match file.resolution {
            Some((_, h)) => Some(h),
            None => None,
        }),
        os(r.video_codec) == os(file.video_codec),
        os(r.audio_codec) == os(file.audio_codec),
        os(r.title) == os(file.title),
        os(r.artist) == os(file.artist),
        os(r.album) == os(file.album),
        r.year == file.year,
{
    CachedMetadata {
        duration: file.duration,
        width: match file.resolution {
            Some((w, _)) => Some(w),
            None => None,
        },
        height: match file.resolution {
            Some((_, h)) => Some(h),
            None => None,
        },
        video_codec: clone_opt_string(&file.video_codec),
        audio_codec: clone_opt_string(&file.audio_codec),
        title: clone_opt_string(&file.title),
        artist: clone_opt_string(&file.artist),
        album: clone_opt_string(&file.album),
        year: file.year,
    }
}

/// Progress information during scanning
#[derive(Debug)]
pub struct ScanProgress {
    /// Number of files scanned so far
    pub files_scanned: usize,
    /// Total number of files to scan
    pub files_total: usize,
    /// Current file path being scanned (if available)
    pub current_path: Option<String>,
}

/// How many threads scan in parallel: half the processors, at least two and
/// at most eight.
pub fn scan_threads(num_cpus: usize) -> (r: usize)
    ensures
        r == (if num_cpus / 2 < 2 { 2 } else if num_cpus / 2 > 8 { 8 } else { num_cpus / 2 }),
{
    let half = num_cpus / 2;
    if half < 2 {
        2
    } else if half > 8 {
        8
    } else {
        half
    }
}


/// Whether a path is media does not depend on the case of its extension:
/// paths whose extensions agree once lower-cased are both media or both not
/// (`IMG_1234.JPG` as `img_1234.jpg`).
pub proof fn media_ignores_extension_case(p1: Seq<char>, p2: Seq<char>, with_svg: bool)
    requires
        extension(p1) matches Some(e1) && extension(p2) matches Some(e2) && lowercase(e1) == lowercase(e2),
    ensures
        media_by_extension(p1, with_svg) == media_by_extension(p2, with_svg),
{
}

/// A path is media exactly when it has an extension that, lower-cased,
/// names a video, audio or image format; common camera and player formats
/// are media in any case of their extension.
pub proof fn media_is_known_extension(p: Seq<char>, with_svg: bool)
    ensures
        extension(p) is None ==> !media_by_extension(p, with_svg),
        extension(p) matches Some(e) ==> (media_by_extension(p, with_svg)
            <==> (is_video_ext(lowercase(e)) || is_audio_ext(lowercase(e)) || is_image_ext(lowercase(e), with_svg))),
        extension(p) matches Some(e) && (lowercase(e) == "mp4"@ || lowercase(e) == "mov"@ || lowercase(e) == "mkv"@
            || lowercase(e) == "mp3"@ || lowercase(e) == "jpg"@ || lowercase(e) == "png"@) ==> media_by_extension(p, with_svg),
{
    reveal_strlit("mp4");
    reveal_strlit("mov");
    reveal_strlit("mkv");
    reveal_strlit("mp3");
    reveal_strlit("jpg");
    reveal_strlit("png");
}
} // verus!
