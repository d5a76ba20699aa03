//! Media metadata: what the container and tag readers report, and how it is
//! merged into a media file.
//!
//! Reading a file is I/O and is left to the caller: this module names the
//! reader each file needs, turns what the readers report into metadata, and
//! merges that metadata into the library's record of the file.

use vstd::prelude::*;
use crate::error::IoKind;
use crate::paths::{extension, path_extension};
use crate::process::CommandStdout;
use crate::text::{chars_of, replace_all, replace_str, split_char, split_chars, starts_with, views};
use crate::types::{MediaFile, lowercase, str_eq, str_starts_with, str_to_lowercase};

verus! {

/// Video metadata extraction result
#[derive(Debug)]
pub struct VideoMetadata {
    /// Duration in milliseconds
    pub duration: Option<u64>,
    pub title: Option<String>,
    pub year: Option<u32>,
    pub resolution: Option<(u32, u32)>,
    pub video_codec: Option<String>,
    pub audio_codec: Option<String>,
}

impl Default for VideoMetadata {
    fn default() -> (r: Self)
        ensures
            r.duration is None && r.title is None && r.year is None && r.resolution is None
                && r.video_codec is None && r.audio_codec is None,
    {
        VideoMetadata { duration: None, title: None, year: None, resolution: None, video_codec: None, audio_codec: None }
    }
}

/// Error type for metadata extraction
#[derive(Debug)]
pub enum MetadataError {
    /// The file could not be read: the failure's kind and message.
    IoError(IoKind, String),
    ParseError(String),
    UnsupportedFormat,
}

// ---------------------------------------------------------------------------
// Codec names
// ---------------------------------------------------------------------------

/// The codec name of a Matroska video codec id.
pub open spec fn video_codec_name(id: Seq<char>) -> Seq<char> {
    if id == "V_MPEG4/ISO/AVC"@ {
        "H.264"@
    } else if id == "V_MPEGH/ISO/HEVC"@ {
        "HEVC"@
    } else if id == "V_VP8"@ {
        "VP8"@
    } else if id == "V_VP9"@ {
        "VP9"@
    } else if id == "V_AV1"@ {
        "AV1"@
    } else if id == "V_MPEG4/ISO/SP"@ || id == "V_MPEG4/ISO/ASP"@ || id == "V_MPEG4/ISO/AP"@ {
        "MPEG-4"@
    } else if id == "V_MPEG2"@ {
        "MPEG-2"@
    } else if id == "V_MPEG1"@ {
        "MPEG-1"@
    } else if id == "V_THEORA"@ {
        "Theora"@
    } else if starts_with(id, "V_MS/VFW/FOURCC"@) {
        split_char(id, '/').last()
    } else {
        replace_all(id, "V_"@, ""@)
    }
}

/// The codec name of a Matroska audio codec id.
pub open spec fn audio_codec_name(id: Seq<char>) -> Seq<char> {
    if id == "A_AAC"@ || id == "A_AAC/MPEG4/LC"@ || id == "A_AAC/MPEG4/LC/SBR"@ {
        "AAC"@
    } else if id == "A_AC3"@ {
        "AC3"@
    } else if id == "A_EAC3"@ {
        "E-AC3"@
    } else if id == "A_DTS"@ {
        "DTS"@
    } else if id == "A_FLAC"@ {
        "FLAC"@
    } else if id == "A_VORBIS"@ {
        "Vorbis"@
    } else if id == "A_OPUS"@ {
        "Opus"@
    } else if id == "A_TRUEHD"@ {
        "TrueHD"@
    } else if id == "A_PCM/INT/LIT"@ || id == "A_PCM/INT/BIG"@ {
        "PCM"@
    } else if id == "A_MP3"@ || id == "A_MPEG/L3"@ {
        "MP3"@
    } else {
        replace_all(id, "A_"@, ""@)
    }
}

fn last_piece(id: &str) -> (r: String)
    ensures
        r@ == split_char(id@, '/').last(),
{
    let pieces = split_chars(chars_of(id).as_slice(), '/');
    let ghost pv = views(pieces@);
    proof {
        crate::text::lemma_split_char_nonempty(id@, '/');
    }
    assert(pv.len() == pieces@.len());
    let last = &pieces[pieces.len() - 1];
    assert(last@ == pv.last());
    crate::text::string_from_chars(last.as_slice())
}

/// Normalize a Matroska video codec id ("V_MPEG4/ISO/AVC" becomes "H.264")
pub fn normalize_video_codec(codec_id: &str) -> (r: String)
    ensures
        r@ == video_codec_name(codec_id@),
{
    proof {
        reveal_strlit("V_");
    }
    let s = if str_eq(codec_id, "V_MPEG4/ISO/AVC") {
        "H.264"
    } else if str_eq(codec_id, "V_MPEGH/ISO/HEVC") {
        "HEVC"
    } else if str_eq(codec_id, "V_VP8") {
        "VP8"
    } else if str_eq(codec_id, "V_VP9") {
        "VP9"
    } else if str_eq(codec_id, "V_AV1") {
        "AV1"
    } else if str_eq(codec_id, "V_MPEG4/ISO/SP") || str_eq(codec_id, "V_MPEG4/ISO/ASP") || str_eq(codec_id, "V_MPEG4/ISO/AP") {
        "MPEG-4"
    } else if str_eq(codec_id, "V_MPEG2") {
        "MPEG-2"
    } else if str_eq(codec_id, "V_MPEG1") {
        "MPEG-1"
    } else if str_eq(codec_id, "V_THEORA") {
        "Theora"
    } else if str_starts_with(codec_id, "V_MS/VFW/FOURCC") {
        return last_piece(codec_id);
    } else {
        return replace_str(codec_id, "V_", "");
    };
    String::from_str(s)
}

/// Normalize a Matroska audio codec id ("A_AC3" becomes "AC3")
pub fn normalize_audio_codec(codec_id: &str) -> (r: String)
    ensures
        r@ == audio_codec_name(codec_id@),
{
    proof {
        reveal_strlit("A_");
    }
    let s = if str_eq(codec_id, "A_AAC") || str_eq(codec_id, "A_AAC/MPEG4/LC") || str_eq(codec_id, "A_AAC/MPEG4/LC/SBR") {
        "AAC"
    } else if str_eq(codec_id, "A_AC3") {
        "AC3"
    } else if str_eq(codec_id, "A_EAC3") {
        "E-AC3"
    } else if str_eq(codec_id, "A_DTS") {
        "DTS"
    } else if str_eq(codec_id, "A_FLAC") {
        "FLAC"
    } else if str_eq(codec_id, "A_VORBIS") {
        "Vorbis"
    } else if str_eq(codec_id, "A_OPUS") {
        "Opus"
    } else if str_eq(codec_id, "A_TRUEHD") {
        "TrueHD"
    } else if str_eq(codec_id, "A_PCM/INT/LIT") || str_eq(codec_id, "A_PCM/INT/BIG") {
        "PCM"
    } else if str_eq(codec_id, "A_MP3") || str_eq(codec_id, "A_MPEG/L3") {
        "MP3"
    } else {
        return replace_str(codec_id, "A_", "");
    };
    String::from_str(s)
}

/// The sample description of an MP4 track, as far as the codec names go.
#[derive(Debug, Clone, Copy, PartialEq, Eq, Structural)]
pub enum Mp4MediaType {
    H264,
    H265,
    VP9,
    AAC,
    TTXT,
    /// Another media type, or none that could be read.
    Other,
}

/// Codec name of an MP4 video track
pub fn format_mp4_video_codec(media_type: Mp4MediaType) -> (r: String)
    ensures
        r@ == (match media_type {
            Mp4MediaType::H264 => "H.264"@,
            Mp4MediaType::H265 => "HEVC"@,
            Mp4MediaType::VP9 => "VP9"@,
            _ => "Unknown"@,
        }),
{
    String::from_str(match media_type {
        Mp4MediaType::H264 => "H.264",
        Mp4MediaType::H265 => "HEVC",
        Mp4MediaType::VP9 => "VP9",
        _ => "Unknown",
    })
}

/// Codec name of an MP4 audio track
pub fn format_mp4_audio_codec(media_type: Mp4MediaType) -> (r: String)
    ensures
        r@ == (match media_type {
            Mp4MediaType::AAC => "AAC"@,
            Mp4MediaType::TTXT => "Text"@,
            _ => "Unknown"@,
        }),
{
    String::from_str(match media_type {
        Mp4MediaType::AAC => "AAC",
        Mp4MediaType::TTXT => "Text",
        _ => "Unknown",
    })
}


// ---------------------------------------------------------------------------
// Extractors
// ---------------------------------------------------------------------------

/// The kind of a track of a container.
#[derive(Debug, Clone, Copy, PartialEq, Eq, Structural)]
pub enum TrackKind {
    Video,
    Audio,
    /// Subtitles, buttons, or anything else.
    Other,
}

/// A Matroska track as the reader reports it.
#[derive(Debug)]
pub struct MkvTrack {
    pub kind: TrackKind,
    pub codec_id: String,
    /// Width and height, where the track has video settings.
    pub pixels: Option<(u64, u64)>,
}

/// What the Matroska reader reports of a file.
#[derive(Debug)]
pub struct MkvInfo {
    /// Duration in milliseconds
    pub duration: Option<u64>,
    pub title: Option<String>,
    pub tracks: Vec<MkvTrack>,
}

/// An MP4 track as the reader reports it; `kind` is the reader's message
/// where the track's type could not be read.
#[derive(Debug)]
pub struct Mp4Track {
    pub kind: Result<TrackKind, String>,
    pub width: u16,
    pub height: u16,
    pub media_type: Mp4MediaType,
}

/// What the MP4 reader reports of a file.
#[derive(Debug)]
pub struct Mp4Info {
    /// Duration in milliseconds
    pub duration: u64,
    pub tracks: Vec<Mp4Track>,
}

/// The index of the first track of a kind.
pub open spec fn first_mkv(tracks: Seq<MkvTrack>, kind: TrackKind) -> Option<int>
    decreases tracks.len(),
{
    if tracks.len() == 0 {
        None
    } else if tracks[0].kind == kind {
        Some(0)
    } else {
        match first_mkv(tracks.drop_first(), kind) {
            Some(i) => Some(i + 1),
            None => None,
        }
    }
}

proof fn lemma_first_mkv(tracks: Seq<MkvTrack>, kind: TrackKind)
    ensures
        first_mkv(tracks, kind) matches Some(i) ==> 0 <= i < tracks.len() && tracks[i].kind == kind,
    decreases tracks.len(),
{
    if tracks.len() > 0 && tracks[0].kind != kind {
        lemma_first_mkv(tracks.drop_first(), kind);
    }
}

fn find_mkv(tracks: &Vec<MkvTrack>, kind: TrackKind) -> (r: Option<usize>)
    ensures
        match r {
            Some(i) => first_mkv(tracks@, kind) == Some(i as int),
            None => first_mkv(tracks@, kind) is None,
        },
{
    let mut i: usize = 0;
    assert(tracks@.skip(0) =~= tracks@);
    while i < tracks.len()
        invariant
            i <= tracks@.len(),
            first_mkv(tracks@, kind) == match first_mkv(tracks@.skip(i as int), kind) {
                Some(j) => Some(j + i),
                None => None,
            },
        decreases tracks@.len() - i,
    {
        let ghost rest = tracks@.skip(i as int);
        assert(rest[0] == tracks@[i as int]);
        assert(rest.drop_first() =~= tracks@.skip(i + 1));
        if tracks[i].kind == kind {
            return Some(i);
        }
        i = i + 1;
    }
    None
}

pub open spec fn opt_string(o: Option<String>) -> Option<Seq<char>> {
    match o {
        Some(s) => Some(s@),
        None => None,
    }
}

/// Matroska metadata: duration and title; resolution and codec of the first
/// video track (the resolution where it has video settings, cut to 32 bits);
/// codec of the first audio track.
pub open spec fn mkv_metadata_holds(info: MkvInfo, m: VideoMetadata) -> bool {
    &&& m.duration == info.duration
    &&& opt_string(m.title) == opt_string(info.title)
    &&& m.year is None
    &&& match first_mkv(info.tracks@, TrackKind::Video) {
        None => m.resolution is None && m.video_codec is None,
        Some(i) => m.resolution == (match info.tracks@[i].pixels {
            Some((w, h)) => Some((w as u32, h as u32)),
            None => None,
        }) && opt_string(m.video_codec) == Some(video_codec_name(info.tracks@[i].codec_id@)),
    }
    &&& match first_mkv(info.tracks@, TrackKind::Audio) {
        None => m.audio_codec is None,
        Some(i) => opt_string(m.audio_codec) == Some(audio_codec_name(info.tracks@[i].codec_id@)),
    }
}

/// Extractor for Matroska files (MKV, WebM)
pub struct MatroskaExtractor;

impl MatroskaExtractor {
    /// The metadata of a Matroska file, from what its reader reports.
    pub fn extract(&self, info: &MkvInfo) -> (r: Result<VideoMetadata, MetadataError>)
        ensures
            r matches Ok(m) && mkv_metadata_holds(*info, m),
    {
        let mut meta = VideoMetadata::default();
        meta.duration = info.duration;
        meta.title = crate::types::clone_opt_string(&info.title);
        proof {
            lemma_first_mkv(info.tracks@, TrackKind::Video);
            lemma_first_mkv(info.tracks@, TrackKind::Audio);
        }
        match find_mkv(&info.tracks, TrackKind::Video) {
            Some(i) => {
                let t = &info.tracks[i];
                meta.resolution = match t.pixels {
                    Some((w, h)) => Some((#[verifier::truncate] (w as u32), #[verifier::truncate] (h as u32))),
                    None => None,
                };
                meta.video_codec = Some(normalize_video_codec(t.codec_id.as_str()));
            },
            None => {},
        }
        match find_mkv(&info.tracks, TrackKind::Audio) {
            Some(i) => {
                meta.audio_codec = Some(normalize_audio_codec(info.tracks[i].codec_id.as_str()));
            },
            None => {},
        }
        Ok(meta)
    }
}

/// How the MP4 tracks are scanned for the first of a kind: a track whose type
/// cannot be read before one of the kind is found ends the scan with its
/// message.
pub open spec fn first_mp4(tracks: Seq<Mp4Track>, kind: TrackKind) -> Result<Option<int>, Seq<char>>
    decreases tracks.len(),
{
    if tracks.len() == 0 {
        Ok(None)
    } else {
        match tracks[0].kind {
            Err(m) => Err(m@),
            Ok(k) => if k == kind {
                Ok(Some(0))
            } else {
                match first_mp4(tracks.drop_first(), kind) {
                    Ok(Some(i)) => Ok(Some(i + 1)),
                    other => other,
                }
            },
        }
    }
}

proof fn lemma_first_mp4(tracks: Seq<Mp4Track>, kind: TrackKind)
    ensures
        first_mp4(tracks, kind) matches Ok(Some(i)) ==> 0 <= i < tracks.len(),
    decreases tracks.len(),
{
    if tracks.len() > 0 {
        lemma_first_mp4(tracks.drop_first(), kind);
    }
}

fn find_mp4(tracks: &Vec<Mp4Track>, kind: TrackKind) -> (r: Result<Option<usize>, String>)
    ensures
        match r {
            Ok(Some(i)) => first_mp4(tracks@, kind) == Ok::<Option<int>, Seq<char>>(Some(i as int)),
            Ok(None) => first_mp4(tracks@, kind) == Ok::<Option<int>, Seq<char>>(None),
            Err(m) => first_mp4(tracks@, kind) == Err::<Option<int>, Seq<char>>(m@),
        },
{
    let mut i: usize = 0;
    assert(tracks@.skip(0) =~= tracks@);
    while i < tracks.len()
        invariant
            i <= tracks@.len(),
            first_mp4(tracks@, kind) == match first_mp4(tracks@.skip(i as int), kind) {
                Ok(Some(j)) => Ok(Some(j + i)),
                other => other,
            },
        decreases tracks@.len() - i,
    {
        let ghost rest = tracks@.skip(i as int);
        assert(rest[0] == tracks@[i as int]);
        assert(rest.drop_first() =~= tracks@.skip(i + 1));
        match &tracks[i].kind {
            Err(m) => return Err(m.clone()),
            Ok(k) => {
                if *k == kind {
                    return Ok(Some(i));
                }
            },
        }
        i = i + 1;
    }
    Ok(None)
}

/// MP4 metadata: duration; resolution and codec of the first video track;
/// codec of the first audio track; a track type that cannot be read is an
/// error.
pub open spec fn mp4_metadata_holds(info: Mp4Info, r: Result<VideoMetadata, MetadataError>) -> bool {
    match (first_mp4(info.tracks@, TrackKind::Video), first_mp4(info.tracks@, TrackKind::Audio)) {
        (Err(m), _) => r matches Err(MetadataError::ParseError(x)) && x@ == m,
        (Ok(_), Err(m)) => r matches Err(MetadataError::ParseError(x)) && x@ == m,
        (Ok(v), Ok(a)) => r matches Ok(meta) && {
            &&& meta.duration == Some(info.duration)
            &&& meta.title is None && meta.year is None
            &&& match v {
                None => meta.resolution is None && meta.video_codec is None,
                Some(i) => meta.resolution == Some((info.tracks@[i].width as u32, info.tracks@[i].height as u32))
                    && opt_string(meta.video_codec) == Some(match info.tracks@[i].media_type {
                        Mp4MediaType::H264 => "H.264"@,
                        Mp4MediaType::H265 => "HEVC"@,
                        Mp4MediaType::VP9 => "VP9"@,
                        _ => "Unknown"@,
                    }),
            }
            &&& match a {
                None => meta.audio_codec is None,
                Some(i) => opt_string(meta.audio_codec) == Some(match info.tracks@[i].media_type {
                    Mp4MediaType::AAC => "AAC"@,
                    Mp4MediaType::TTXT => "Text"@,
                    _ => "Unknown"@,
                }),
            }
        },
    }
}

/// Extractor for MP4 files (MP4, M4V, MOV, 3GP, M4A)
pub struct Mp4Extractor;

impl Mp4Extractor {
    /// The metadata of an MP4 file, from what its reader reports.
    pub fn extract(&self, info: &Mp4Info) -> (r: Result<VideoMetadata, MetadataError>)
        ensures
            mp4_metadata_holds(*info, r),
    {
        proof {
            lemma_first_mp4(info.tracks@, TrackKind::Video);
            lemma_first_mp4(info.tracks@, TrackKind::Audio);
        }
        let mut meta = VideoMetadata::default();
        meta.duration = Some(info.duration);
        match find_mp4(&info.tracks, TrackKind::Video) {
            Err(m) => return Err(MetadataError::ParseError(m)),
            Ok(Some(i)) => {
                let t = &info.tracks[i];
                meta.resolution = Some((t.width as u32, t.height as u32));
                meta.video_codec = Some(format_mp4_video_codec(t.media_type));
            },
            Ok(None) => {},
        }
        match find_mp4(&info.tracks, TrackKind::Audio) {
            Err(m) => return Err(MetadataError::ParseError(m)),
            Ok(Some(i)) => {
                meta.audio_codec = Some(format_mp4_audio_codec(info.tracks[i].media_type));
            },
            Ok(None) => {},
        }
        Ok(meta)
    }
}

/// Trait for format-specific metadata extractors
pub trait MetadataExtractor {
    /// The extensions the extractor reads (lowercase, no dot).
    spec fn extensions(&self) -> Seq<Seq<char>>;

    /// File extensions this extractor handles (lowercase, no dot)
    fn supported_extensions(&self) -> (r: Vec<&'static str>)
        ensures
            r@.map_values(|e: &'static str| e@) == self.extensions();
}

impl MetadataExtractor for MatroskaExtractor {
    open spec fn extensions(&self) -> Seq<Seq<char>> {
        seq!["mkv"@, "webm"@]
    }

    fn supported_extensions(&self) -> (r: Vec<&'static str>) {
        let r = vec!["mkv", "webm"];
        assert(r@.map_values(|e: &'static str| e@) =~= seq!["mkv"@, "webm"@]);
        r
    }
}

impl MetadataExtractor for Mp4Extractor {
    open spec fn extensions(&self) -> Seq<Seq<char>> {
        seq!["mp4"@, "m4v"@, "mov"@, "3gp"@, "m4a"@]
    }

    fn supported_extensions(&self) -> (r: Vec<&'static str>) {
        let r = vec!["mp4", "m4v", "mov", "3gp", "m4a"];
        assert(r@.map_values(|e: &'static str| e@) =~= seq!["mp4"@, "m4v"@, "mov"@, "3gp"@, "m4a"@]);
        r
    }
}

/// The container reader a file needs.
#[derive(Debug, Clone, Copy, PartialEq, Eq, Structural)]
pub enum ContainerKind {
    Matroska,
    Mp4,
}

/// The reader for a lower-cased extension, the first whose list holds it.
pub open spec fn container_for_ext(e: Seq<char>) -> Option<ContainerKind> {
    if e == "mkv"@ || e == "webm"@ {
        Some(ContainerKind::Matroska)
    } else if e == "mp4"@ || e == "m4v"@ || e == "mov"@ || e == "3gp"@ || e == "m4a"@ {
        Some(ContainerKind::Mp4)
    } else {
        None
    }
}

/// The reader for a path: by its extension, lower-cased (no extension reads
/// as the empty one).
pub open spec fn container_for_path(path: Seq<char>) -> Option<ContainerKind> {
    match extension(path) {
        Some(e) => container_for_ext(lowercase(e)),
        None => container_for_ext(Seq::empty()),
    }
}

/// Registry of all metadata extractors
pub struct MetadataRegistry {
    extractors: Vec<ContainerKind>,
}

impl MetadataRegistry {
    pub fn new() -> (r: Self)
        ensures
            r.wf(),
    {
        MetadataRegistry { extractors: vec![ContainerKind::Matroska, ContainerKind::Mp4] }
    }

    /// The registry holds the Matroska extractor, then the MP4 one.
    pub closed spec fn wf(&self) -> bool {
        self.extractors@ == seq![ContainerKind::Matroska, ContainerKind::Mp4]
    }

    fn handles(kind: ContainerKind, ext: &str) -> (r: bool)
        ensures
            r == (container_for_ext(ext@) == Some(kind)),
    {
        match kind {
            ContainerKind::Matroska => str_eq(ext, "mkv") || str_eq(ext, "webm"),
            ContainerKind::Mp4 => {
                let m = str_eq(ext, "mkv") || str_eq(ext, "webm");
                !m && (str_eq(ext, "mp4") || str_eq(ext, "m4v") || str_eq(ext, "mov") || str_eq(ext, "3gp")
                    || str_eq(ext, "m4a"))
            },
        }
    }

    /// The extractor that reads a file, chosen by the file's extension;
    /// `UnsupportedFormat` where none handles it.
    pub fn extract(&self, path: &str) -> (r: Result<ContainerKind, MetadataError>)
        requires
            self.wf(),
        ensures
            match container_for_path(path@) {
                Some(k) => r == Ok::<ContainerKind, MetadataError>(k),
                None => r matches Err(MetadataError::UnsupportedFormat),
            },
    {
        let ext = match path_extension(path) {
            Some(e) => str_to_lowercase(e.as_str()),
            None => String::new(),
        };
        let mut i: usize = 0;
        while i < self.extractors.len()
            invariant
                self.wf(),
                i <= 2,
                forall|j: int| 0 <= j < i ==> container_for_ext(ext@) != Some(self.extractors@[j]),
                ext@ == match extension(path@) {
                    Some(e) => lowercase(e),
                    None => Seq::<char>::empty(),
                },
            decreases 2 - i,
        {
            let kind = self.extractors[i];
            if Self::handles(kind, ext.as_str()) {
                return Ok(kind);
            }
            i = i + 1;
        }
        proof {
            assert(container_for_ext(ext@) != Some(ContainerKind::Matroska));
            assert(container_for_ext(ext@) != Some(ContainerKind::Mp4));
        }
        Err(MetadataError::UnsupportedFormat)
    }
}

// ---------------------------------------------------------------------------
// Merging metadata into a file
// ---------------------------------------------------------------------------

/// Which reader a file's metadata comes from, by its MIME type.
#[derive(Debug, Clone, Copy, PartialEq, Eq, Structural)]
pub enum MetadataSource {
    /// Audio tags and properties.
    Audio,
    /// A container reader, or ffprobe.
    Video,
    /// Nothing is read.
    Skip,
}

pub open spec fn source_of_mime(mime: Seq<char>) -> MetadataSource {
    if starts_with(mime, "audio/"@) {
        MetadataSource::Audio
    } else if starts_with(mime, "video/"@) {
        MetadataSource::Video
    } else {
        MetadataSource::Skip
    }
}

/// Where the metadata of a file comes from.
pub fn metadata_source(file: &MediaFile) -> (r: MetadataSource)
    ensures
        r == source_of_mime(file.mime_type@),
{
    if str_starts_with(file.mime_type.as_str(), "audio/") {
        MetadataSource::Audio
    } else if str_starts_with(file.mime_type.as_str(), "video/") {
        MetadataSource::Video
    } else {
        MetadataSource::Skip
    }
}

/// What the audio tag reader reports of a file.
#[derive(Debug)]
pub struct AudioTags {
    /// Duration from the audio properties, in milliseconds.
    pub duration: u64,
    pub title: Option<String>,
    pub artist: Option<String>,
    pub album: Option<String>,
    pub year: Option<u32>,
}

/// What was read of a file's metadata.
#[derive(Debug)]
pub enum ExtractedMetadata {
    /// Audio tags, or none where the file could not be read.
    Audio(Option<AudioTags>),
    /// The container's metadata, or why there is none, and the duration that
    /// ffprobe gives (in milliseconds), asked for where there is none.
    Video(Result<VideoMetadata, MetadataError>, Option<u64>),
    /// Nothing was read.
    Nothing,
}

/// `after` is `before` with the metadata merged in: audio tags set what they
/// hold (a zero duration is ignored); container metadata sets the duration
/// and title where present and the rest as given; without container metadata
/// the ffprobe duration is taken where there is one.
pub open spec fn merged(before: MediaFile, found: ExtractedMetadata, after: MediaFile) -> bool {
    &&& after.id == before.id && after.path == before.path && after.filename == before.filename
    &&& after.mime_type == before.mime_type && after.media_type == before.media_type
    &&& after.size == before.size && after.parent_id == before.parent_id
    &&& match found {
        ExtractedMetadata::Audio(Some(t)) => {
            &&& after.duration == (if t.duration != 0 { Some(t.duration) } else { before.duration })
            &&& opt_string(after.title) == (if t.title is Some { opt_string(t.title) } else { opt_string(before.title) })
            &&& opt_string(after.artist) == (if t.artist is Some { opt_string(t.artist) } else { opt_string(before.artist) })
            &&& opt_string(after.album) == (if t.album is Some { opt_string(t.album) } else { opt_string(before.album) })
            &&& after.year == (if t.year is Some { t.year } else { before.year })
            &&& after.resolution == before.resolution
            &&& opt_string(after.video_codec) == opt_string(before.video_codec)
            &&& opt_string(after.audio_codec) == opt_string(before.audio_codec)
        },
        ExtractedMetadata::Video(Ok(m), _) => {
            &&& after.duration == (if m.duration is Some { m.duration } else { before.duration })
            &&& opt_string(after.title) == (if m.title is Some { opt_string(m.title) } else { opt_string(before.title) })
            &&& opt_string(after.artist) == opt_string(before.artist)
            &&& opt_string(after.album) == opt_string(before.album)
            &&& after.year == m.year
            &&& after.resolution == m.resolution
            &&& opt_string(after.video_codec) == opt_string(m.video_codec)
            &&& opt_string(after.audio_codec) == opt_string(m.audio_codec)
        },
        ExtractedMetadata::Video(Err(_), probe) => {
            &&& after.duration == (if probe is Some { probe } else { before.duration })
            &&& unchanged_tags(before, after)
        },
        _ => {
            &&& after.duration == before.duration
            &&& unchanged_tags(before, after)
        },
    }
}

pub open spec fn unchanged_tags(before: MediaFile, after: MediaFile) -> bool {
    &&& opt_string(after.title) == opt_string(before.title)
    &&& opt_string(after.artist) == opt_string(before.artist)
    &&& opt_string(after.album) == opt_string(before.album)
    &&& after.year == before.year
    &&& after.resolution == before.resolution
    &&& opt_string(after.video_codec) == opt_string(before.video_codec)
    &&& opt_string(after.audio_codec) == opt_string(before.audio_codec)
}

/// Extract metadata from a media file and update it in place, given what its
/// reader found (see `metadata_source`).
pub fn extract_metadata(file: &mut MediaFile, found: ExtractedMetadata)
    ensures
        merged(*old(file), found, *final(file)),
{
    let ghost f0 = *file;
    match found {
        ExtractedMetadata::Audio(Some(t)) => {
            if t.duration != 0 {
                file.duration = Some(t.duration);
            }
            if t.title.is_some() {
                file.title = t.title;
            }
            if t.artist.is_some() {
                file.artist = t.artist;
            }
            if t.album.is_some() {
                file.album = t.album;
            }
            if t.year.is_some() {
                file.year = t.year;
            }
        },
        ExtractedMetadata::Video(Ok(m), _) => {
            if m.duration.is_some() {
                file.duration = m.duration;
            }
            if m.title.is_some() {
                file.title = m.title;
            }
            file.year = m.year;
            file.resolution = m.resolution;
            file.video_codec = m.video_codec;
            file.audio_codec = m.audio_codec;
        },
        ExtractedMetadata::Video(Err(_), probe) => {
            if probe.is_some() {
                file.duration = probe;
            }
        },
        _ => {},
    }
}

/// Whether ffprobe ran: given what `ffprobe -version` returned (`None` where it
/// could not run or timed out), it is available where it exited successfully.
pub fn ffprobe_available(output: Option<CommandStdout>) -> (r: bool)
    ensures
        r == (match output {
            Some(o) => o.success,
            None => false,
        }),
{
    match output {
        Some(o) => o.success,
        None => false,
    }
}
} // verus!
