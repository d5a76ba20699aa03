//! Core types of the library: media files, media types, transport state and
//! the records a renderer reports.

use vstd::prelude::*;
use std::hash::{BuildHasher, BuildHasherDefault};
use std::collections::hash_map::DefaultHasher;
use crate::text::{push_str, starts_with, push_hex, hex_lower, ascii_lower_seq, ascii_upper_seq};
use crate::paths::{file_name, extension};

verus! {

/// The text of a version-4 UUID: 32 lower-case hexadecimal digits in groups
/// of 8, 4, 4, 4 and 12 joined by `-`, the version digit `4`, and the variant
/// digit one of `8`, `9`, `a`, `b`.
pub open spec fn uuid_v4_text(s: Seq<char>) -> bool {
    &&& s.len() == 36
    &&& forall|i: int| 0 <= i < 36 ==> (if i == 8 || i == 13 || i == 18 || i == 23 {
        s[i] == '-'
    } else {
        ('0' <= s[i] && s[i] <= '9') || ('a' <= s[i] && s[i] <= 'f')
    })
    &&& s[14] == '4'
    &&& (s[19] == '8' || s[19] == '9' || s[19] == 'a' || s[19] == 'b')
}

/// A random version-4 UUID in its hyphenated text form (`uuid::Uuid::new_v4`,
/// written by its `Display`). Which UUID is random; only its form is claimed.
#[verifier::external_body]
pub(crate) fn new_uuid_string() -> (s: String)
    ensures
        uuid_v4_text(s@),
{
    uuid::Uuid::new_v4().to_string()
}

/// Information about this server for SSDP announcements
pub struct ServerInfo {
    /// Human-readable name of the server
    pub friendly_name: String,
    /// Unique Device Name (`uuid:` followed by a UUID)
    pub udn: String,
    /// Manufacturer name
    pub manufacturer: String,
    /// Model name
    pub model_name: String,
}

impl Clone for ServerInfo {
    fn clone(&self) -> (r: Self)
        ensures
            r == *self,
    {
        ServerInfo {
            friendly_name: self.friendly_name.clone(),
            udn: self.udn.clone(),
            manufacturer: self.manufacturer.clone(),
            model_name: self.model_name.clone(),
        }
    }
}

impl ServerInfo {
    /// Create new server info with a generated UUID
    pub fn new(friendly_name: &str) -> (r: Self)
        ensures
            r.friendly_name@ == friendly_name@,
            starts_with(r.udn@, "uuid:"@),
            uuid_v4_text(r.udn@.skip(5)),
            r.manufacturer@ == "flingdlna"@,
            r.model_name@ == "flingdlna DMS 1.0"@,
    {
        let mut udn = String::new();
        push_str(&mut udn, "uuid:");
        let id = new_uuid_string();
        let ghost prefix = udn@;
        push_str(&mut udn, id.as_str());
        proof {
            reveal_strlit("uuid:");
            assert(udn@.take(5) =~= prefix);
            assert(udn@.skip(5) =~= id@);
        }
        ServerInfo {
            friendly_name: String::from_str(friendly_name),
            udn,
            manufacturer: String::from_str("flingdlna"),
            model_name: String::from_str("flingdlna DMS 1.0"),
        }
    }
}

/// Type of media file
#[derive(Debug, Clone, Copy, PartialEq, Eq, Hash, Structural)]
pub enum MediaType {
    Video,
    Audio,
    Image,
}

/// The UPnP class of each media type.
pub open spec fn upnp_class_of(t: MediaType) -> Seq<char> {
    match t {
        MediaType::Video => "object.item.videoItem"@,
        MediaType::Audio => "object.item.audioItem.musicTrack"@,
        MediaType::Image => "object.item.imageItem.photo"@,
    }
}

/// The media type a MIME type names by its top-level type.
pub open spec fn media_type_of_mime(mime: Seq<char>) -> Option<MediaType> {
    if starts_with(mime, "video/"@) {
        Some(MediaType::Video)
    } else if starts_with(mime, "audio/"@) {
        Some(MediaType::Audio)
    } else if starts_with(mime, "image/"@) {
        Some(MediaType::Image)
    } else {
        None
    }
}

/// The display name of each media type.
pub open spec fn media_type_name(t: MediaType) -> Seq<char> {
    match t {
        MediaType::Video => "Video"@,
        MediaType::Audio => "Audio"@,
        MediaType::Image => "Image"@,
    }
}

pub fn str_starts_with(s: &str, p: &str) -> (b: bool)
    ensures
        b == starts_with(s@, p@),
{
    let sc = crate::text::chars_of(s);
    let pc = crate::text::chars_of(p);
    crate::text::starts_with_chars(&sc, &pc)
}

impl MediaType {
    /// Get the UPnP class for this media type
    pub fn upnp_class(&self) -> (r: &'static str)
        ensures
            r@ == upnp_class_of(*self),
    {
        match self {
            MediaType::Video => "object.item.videoItem",
            MediaType::Audio => "object.item.audioItem.musicTrack",
            MediaType::Image => "object.item.imageItem.photo",
        }
    }

    /// Determine media type from MIME type string
    pub fn from_mime(mime: &str) -> (r: Option<Self>)
        ensures
            r == media_type_of_mime(mime@),
    {
        if str_starts_with(mime, "video/") {
            Some(MediaType::Video)
        } else if str_starts_with(mime, "audio/") {
            Some(MediaType::Audio)
        } else if str_starts_with(mime, "image/") {
            Some(MediaType::Image)
        } else {
            None
        }
    }

    /// The name the type is shown under (`Video`, `Audio`, `Image`).
    pub fn display_name(&self) -> (r: &'static str)
        ensures
            r@ == media_type_name(*self),
    {
        match self {
            MediaType::Video => "Video",
            MediaType::Audio => "Audio",
            MediaType::Image => "Image",
        }
    }
}

pub fn clone_opt_string(o: &Option<String>) -> (r: Option<String>)
    ensures
        r == *o,
{
    match o {
        Some(s) => Some(s.clone()),
        None => None,
    }
}

/// Represents a media file in the server's library
pub struct MediaFile {
    /// Unique identifier for this file
    pub id: String,
    /// Full path to the file
    pub path: String,
    /// File name without path
    pub filename: String,
    /// MIME type (e.g., "video/mp4")
    pub mime_type: String,
    /// Media type category
    pub media_type: MediaType,
    /// File size in bytes
    pub size: u64,
    /// Media duration in milliseconds (for video/audio)
    pub duration: Option<u64>,
    /// Title metadata
    pub title: Option<String>,
    /// Artist metadata (for audio)
    pub artist: Option<String>,
    /// Album metadata (for audio)
    pub album: Option<String>,
    /// Parent directory ID
    pub parent_id: String,
    /// Release year
    pub year: Option<u32>,
    /// Video resolution (width, height)
    pub resolution: Option<(u32, u32)>,
    /// Video codec name (e.g., "H.264", "HEVC")
    pub video_codec: Option<String>,
    /// Audio codec name (e.g., "AAC", "AC3")
    pub audio_codec: Option<String>,
}

impl Clone for MediaFile {
    fn clone(&self) -> (r: Self)
        ensures
            r == *self,
    {
        MediaFile {
            id: self.id.clone(),
            path: self.path.clone(),
            filename: self.filename.clone(),
            mime_type: self.mime_type.clone(),
            media_type: self.media_type,
            size: self.size,
            duration: self.duration,
            title: clone_opt_string(&self.title),
            artist: clone_opt_string(&self.artist),
            album: clone_opt_string(&self.album),
            parent_id: self.parent_id.clone(),
            year: self.year,
            resolution: self.resolution,
            video_codec: clone_opt_string(&self.video_codec),
            audio_codec: clone_opt_string(&self.audio_codec),
        }
    }
}

/// The title a file is shown under: its title metadata, else its file name.
pub open spec fn display_title_of(f: MediaFile) -> Seq<char> {
    match f.title {
        Some(t) => t@,
        None => f.filename@,
    }
}

/// The MIME type `mime_guess` gives first for a path, by its extension.
pub uninterp spec fn guessed_mime(path: Seq<char>) -> Option<Seq<char>>;

/// `mime_guess::from_path(path).first()`, as text.
#[verifier::external_body]
pub(crate) fn guess_mime(path: &str) -> (r: Option<String>)
    ensures
        r matches Some(m) ==> guessed_mime(path@) == Some(m@),
        r is None ==> guessed_mime(path@) is None,
{
    mime_guess::from_path(path).first().map(|m| m.to_string())
}

/// The value `std::collections::hash_map::DefaultHasher` gives for the bytes of
/// a path string hashed as a byte slice.
pub uninterp spec fn path_bytes_hash(path: Seq<char>) -> u64;

/// Hashes the bytes of a path string with `DefaultHasher` (fixed keys).
#[verifier::external_body]
pub(crate) fn hash_path_bytes(path: &str) -> (h: u64)
    ensures
        h == path_bytes_hash(path@),
{
    BuildHasherDefault::<DefaultHasher>::default().hash_one(path.as_bytes())
}

/// The MIME type of a path: the guessed one, else `application/octet-stream`.
pub open spec fn mime_of_path(path: Seq<char>) -> Seq<char> {
    match guessed_mime(path) {
        Some(m) => m,
        None => "application/octet-stream"@,
    }
}

/// The file a `MediaFile` describes when built from a path, its parent id, its
/// size and its duration (in milliseconds), or `None` where the path has no file
/// name or no media MIME type.
pub open spec fn media_file_of(
    path: Seq<char>,
    parent_id: Seq<char>,
    size: u64,
    duration: Option<u64>,
) -> Option<(Seq<char>, Seq<char>, MediaType, Seq<char>)> {
    match file_name(path) {
        None => None,
        Some(name) => match media_type_of_mime(mime_of_path(path)) {
            None => None,
            Some(t) => Some((name, mime_of_path(path), t, hex_lower(path_bytes_hash(path) as nat))),
        },
    }
}

impl MediaFile {
    /// Create a new MediaFile from a path, given the file's size and duration
    /// (milliseconds) as read from the file system.
    pub fn from_path(path: &str, parent_id: &str, size: u64, duration: Option<u64>) -> (r: Option<Self>)
        ensures
            match media_file_of(path@, parent_id@, size, duration) {
                None => r is None,
                Some((name, mime, t, id)) => r matches Some(f) && f.id@ == id && f.path@ == path@
                    && f.filename@ == name && f.mime_type@ == mime && f.media_type == t
                    && f.size == size && f.duration == duration && f.title is None
                    && f.artist is None && f.album is None && f.parent_id@ == parent_id@
                    && f.year is None && f.resolution is None && f.video_codec is None
                    && f.audio_codec is None,
            },
    {
        let pc = crate::text::chars_of(path);
        let name = match crate::paths::path_file_name(&pc) {
            Some(n) => n,
            None => return None,
        };
        let mime_type = match guess_mime(path) {
            Some(m) => m,
            None => String::from_str("application/octet-stream"),
        };
        proof {
            reveal_strlit("application/octet-stream");
        }
        let media_type = match MediaType::from_mime(mime_type.as_str()) {
            Some(t) => t,
            None => return None,
        };
        let mut id = String::new();
        push_hex(&mut id, hash_path_bytes(path));
        Some(MediaFile {
            id,
            path: String::from_str(path),
            filename: crate::text::string_from_chars(&name),
            mime_type,
            media_type,
            size,
            duration,
            title: None,
            artist: None,
            album: None,
            parent_id: String::from_str(parent_id),
            year: None,
            resolution: None,
            video_codec: None,
            audio_codec: None,
        })
    }

    /// Get the display title (title metadata or filename)
    pub fn display_title(&self) -> (r: &str)
        ensures
            r@ == display_title_of(*self),
    {
        match &self.title {
            Some(t) => t.as_str(),
            None => self.filename.as_str(),
        }
    }
}

/// Transport state of a renderer
#[derive(Debug, Clone, Copy, PartialEq, Eq, Structural)]
pub enum TransportState {
    Stopped,
    Playing,
    Paused,
    Transitioning,
    NoMediaPresent,
    Unknown,
}

/// Every character is ASCII.
pub open spec fn all_ascii(s: Seq<char>) -> bool {
    forall|i: int| 0 <= i < s.len() ==> (s[i] as u32) < 128
}

/// The upper-case form `str::to_uppercase` gives of a string.
pub uninterp spec fn uppercase(s: Seq<char>) -> Seq<char>;

/// `str::to_uppercase` (Unicode upper-casing); ASCII text is upper-cased
/// character by character.
#[verifier::external_body]
pub(crate) fn str_to_uppercase(s: &str) -> (r: String)
    ensures
        r@ == uppercase(s@),
        all_ascii(s@) ==> r@ == ascii_upper_seq(s@),
{
    s.to_uppercase()
}

/// The lower-case form `str::to_lowercase` gives of a string.
pub uninterp spec fn lowercase(s: Seq<char>) -> Seq<char>;

/// `str::to_lowercase` (Unicode lower-casing); ASCII text is lower-cased
/// character by character.
#[verifier::external_body]
pub(crate) fn str_to_lowercase(s: &str) -> (r: String)
    ensures
        r@ == lowercase(s@),
        all_ascii(s@) ==> r@ == ascii_lower_seq(s@),
{
    s.to_lowercase()
}

/// The state an upper-cased AVTransport state string names.
pub open spec fn transport_state_of_upper(u: Seq<char>) -> TransportState {
    if u == "STOPPED"@ {
        TransportState::Stopped
    } else if u == "PLAYING"@ {
        TransportState::Playing
    } else if u == "PAUSED_PLAYBACK"@ || u == "PAUSED"@ {
        TransportState::Paused
    } else if u == "TRANSITIONING"@ {
        TransportState::Transitioning
    } else if u == "NO_MEDIA_PRESENT"@ {
        TransportState::NoMediaPresent
    } else {
        TransportState::Unknown
    }
}

pub fn str_eq(a: &str, b: &str) -> (r: bool)
    ensures
        r == (a@ == b@),
{
    let ac = crate::text::chars_of(a);
    let bc = crate::text::chars_of(b);
    crate::paths::chars_eq(&ac, &bc)
}

impl TransportState {
    /// The state named by an already upper-cased AVTransport state string.
    pub fn from_upper(u: &str) -> (r: Self)
        ensures
            r == transport_state_of_upper(u@),
    {
        if str_eq(u, "STOPPED") {
            TransportState::Stopped
        } else if str_eq(u, "PLAYING") {
            TransportState::Playing
        } else if str_eq(u, "PAUSED_PLAYBACK") || str_eq(u, "PAUSED") {
            TransportState::Paused
        } else if str_eq(u, "TRANSITIONING") {
            TransportState::Transitioning
        } else if str_eq(u, "NO_MEDIA_PRESENT") {
            TransportState::NoMediaPresent
        } else {
            TransportState::Unknown
        }
    }

    /// Parse from AVTransport response string (case-insensitive)
    pub fn from_str(s: &str) -> (r: Self)
        ensures
            r == transport_state_of_upper(uppercase(s@)),
            all_ascii(s@) ==> r == transport_state_of_upper(ascii_upper_seq(s@)),
    {
        let u = str_to_uppercase(s);
        Self::from_upper(u.as_str())
    }
}

impl std::str::FromStr for TransportState {
    type Err = std::convert::Infallible;

    /// `s.parse()` gives what `TransportState::from_str` gives.
    fn from_str(s: &str) -> Result<Self, Self::Err> {
        Ok(TransportState::from_upper(str_to_uppercase(s).as_str()))
    }
}

/// Playback information from a renderer
pub struct PlaybackInfo {
    /// Current playback position, in milliseconds
    pub position: u64,
    /// Total media duration, in milliseconds
    pub duration: u64,
    /// Current transport state
    pub state: TransportState,
    /// Currently playing URI
    pub current_uri: Option<String>,
}

/// Media information from GetMediaInfo (UPnP AVTransport action)
pub struct MediaInfo {
    /// Number of tracks in the current media
    pub nr_tracks: u32,
    /// Duration of the current media in milliseconds (if provided by device)
    pub media_duration: Option<u64>,
    /// Current URI being played
    pub current_uri: Option<String>,
    /// Play medium type (NETWORK, HDD, CD-DA, etc.)
    pub play_medium: Option<String>,
    /// Next URI in queue (if applicable)
    pub next_uri: Option<String>,
}

/// Device capabilities from GetDeviceCapabilities (UPnP AVTransport action)
pub struct DeviceCapabilities {
    /// Supported play media types (e.g., ["NETWORK", "HDD", "CD-DA"])
    pub play_media: Vec<String>,
    /// Supported record media types (usually ["NOT_IMPLEMENTED"])
    pub rec_media: Vec<String>,
    /// Supported record quality modes (usually ["NOT_IMPLEMENTED"])
    pub rec_quality_modes: Vec<String>,
}


/// Represents a device icon from UPnP device description
#[derive(Debug)]
pub struct DeviceIcon {
    /// MIME type (e.g. "image/png", "image/jpeg")
    pub mime_type: String,
    /// Icon width in pixels
    pub width: u32,
    /// Icon height in pixels
    pub height: u32,
    /// Color depth in bits
    pub depth: u32,
    /// URL to the icon image (the text of a parsed URL)
    pub url: String,
}

/// An icon as plain values: MIME type, width, height, depth and URL.
pub type IconView = (Seq<char>, u32, u32, u32, Seq<char>);

impl View for DeviceIcon {
    type V = IconView;

    open spec fn view(&self) -> IconView {
        (self.mime_type@, self.width, self.height, self.depth, self.url@)
    }
}

/// Represents a discovered DLNA Media Renderer; each URL is held as the text
/// of a parsed URL.
#[derive(Debug)]
pub struct Renderer {
    /// Human-readable name of the device
    pub friendly_name: String,
    /// URL to the device description XML
    pub location: String,
    /// Unique Device Name (UUID)
    pub udn: String,
    /// URL for AVTransport service control
    pub av_transport_url: Option<String>,
    /// Service type for AVTransport (e.g. urn:schemas-upnp-org:service:AVTransport:1)
    pub av_transport_service_type: Option<String>,
    /// URL for RenderingControl service (volume, mute)
    pub rendering_control_url: Option<String>,
    /// Service type for RenderingControl
    pub rendering_control_service_type: Option<String>,
    /// URL for AVTransport event subscription
    pub av_transport_event_url: Option<String>,
    /// URL for RenderingControl event subscription
    pub rendering_control_event_url: Option<String>,
    /// Device manufacturer
    pub manufacturer: Option<String>,
    /// Device model name
    pub model_name: Option<String>,
    /// Device model number
    pub model_number: Option<String>,
    /// Device model description
    pub model_description: Option<String>,
    /// Device serial number
    pub serial_number: Option<String>,
    /// Presentation URL (web UI for device configuration)
    pub presentation_url: Option<String>,
    /// MAC address for Wake-on-LAN (format: AA:BB:CC:DD:EE:FF)
    pub mac_address: Option<String>,
    /// Device icons in various sizes
    pub icons: Vec<DeviceIcon>,
    /// Firmware version
    pub firmware_version: Option<String>,
    /// Capabilities string
    pub capabilities: Option<String>,
}

/// A renderer as plain values.
pub struct RendererView {
    pub friendly_name: Seq<char>,
    pub location: Seq<char>,
    pub udn: Seq<char>,
    pub av_transport_url: Option<Seq<char>>,
    pub av_transport_service_type: Option<Seq<char>>,
    pub rendering_control_url: Option<Seq<char>>,
    pub rendering_control_service_type: Option<Seq<char>>,
    pub av_transport_event_url: Option<Seq<char>>,
    pub rendering_control_event_url: Option<Seq<char>>,
    pub manufacturer: Option<Seq<char>>,
    pub model_name: Option<Seq<char>>,
    pub model_number: Option<Seq<char>>,
    pub model_description: Option<Seq<char>>,
    pub serial_number: Option<Seq<char>>,
    pub presentation_url: Option<Seq<char>>,
    pub mac_address: Option<Seq<char>>,
    pub icons: Seq<IconView>,
    pub firmware_version: Option<Seq<char>>,
    pub capabilities: Option<Seq<char>>,
}

pub open spec fn opt_str_view(o: Option<String>) -> Option<Seq<char>> {
    match o {
        Some(s) => Some(s@),
        None => None,
    }
}

impl View for Renderer {
    type V = RendererView;

    open spec fn view(&self) -> RendererView {
        RendererView {
            friendly_name: self.friendly_name@,
            location: self.location@,
            udn: self.udn@,
            av_transport_url: opt_str_view(self.av_transport_url),
            av_transport_service_type: opt_str_view(self.av_transport_service_type),
            rendering_control_url: opt_str_view(self.rendering_control_url),
            rendering_control_service_type: opt_str_view(self.rendering_control_service_type),
            av_transport_event_url: opt_str_view(self.av_transport_event_url),
            rendering_control_event_url: opt_str_view(self.rendering_control_event_url),
            manufacturer: opt_str_view(self.manufacturer),
            model_name: opt_str_view(self.model_name),
            model_number: opt_str_view(self.model_number),
            model_description: opt_str_view(self.model_description),
            serial_number: opt_str_view(self.serial_number),
            presentation_url: opt_str_view(self.presentation_url),
            mac_address: opt_str_view(self.mac_address),
            icons: self.icons@.map_values(|i: DeviceIcon| i@),
            firmware_version: opt_str_view(self.firmware_version),
            capabilities: opt_str_view(self.capabilities),
        }
    }
}

impl Clone for DeviceIcon {
    fn clone(&self) -> (r: Self)
        ensures
            r@ == self@,
    {
        DeviceIcon {
            mime_type: self.mime_type.clone(),
            width: self.width,
            height: self.height,
            depth: self.depth,
            url: self.url.clone(),
        }
    }
}

impl Clone for Renderer {
    fn clone(&self) -> (r: Self)
        ensures
            r@ == self@,
    {
        let mut icons: Vec<DeviceIcon> = Vec::new();
        let mut i: usize = 0;
        while i < self.icons.len()
            invariant
                i <= self.icons@.len(),
                icons@.len() == i,
                forall|k: int| 0 <= k < i ==> icons@[k]@ == self.icons@[k]@,
            decreases self.icons@.len() - i,
        {
            icons.push(self.icons[i].clone());
            i = i + 1;
        }
        assert(icons@.map_values(|x: DeviceIcon| x@) =~= self.icons@.map_values(|x: DeviceIcon| x@));
        Renderer {
            friendly_name: self.friendly_name.clone(),
            location: self.location.clone(),
            udn: self.udn.clone(),
            av_transport_url: clone_opt_string(&self.av_transport_url),
            av_transport_service_type: clone_opt_string(&self.av_transport_service_type),
            rendering_control_url: clone_opt_string(&self.rendering_control_url),
            rendering_control_service_type: clone_opt_string(&self.rendering_control_service_type),
            av_transport_event_url: clone_opt_string(&self.av_transport_event_url),
            rendering_control_event_url: clone_opt_string(&self.rendering_control_event_url),
            manufacturer: clone_opt_string(&self.manufacturer),
            model_name: clone_opt_string(&self.model_name),
            model_number: clone_opt_string(&self.model_number),
            model_description: clone_opt_string(&self.model_description),
            serial_number: clone_opt_string(&self.serial_number),
            presentation_url: clone_opt_string(&self.presentation_url),
            mac_address: clone_opt_string(&self.mac_address),
            icons,
            firmware_version: clone_opt_string(&self.firmware_version),
            capabilities: clone_opt_string(&self.capabilities),
        }
    }
}

impl Renderer {
    /// Get the host address of this renderer (the host of its location)
    pub fn host(&self) -> (r: Option<String>)
        ensures
            match r {
                Some(h) => crate::urls::host_str_of(self.location@) == Some(h@),
                None => crate::urls::host_str_of(self.location@) is None,
            },
    {
        crate::urls::url_host_str(self.location.as_str())
    }

    /// Check if this renderer matches a search query (case-insensitive): by
    /// its name, its host, or its location, all lower-cased.
    pub fn matches(&self, query: &str) -> (r: bool)
        ensures
            r == (crate::text::contains_seq(lowercase(self.friendly_name@), lowercase(query@))
                || (match crate::urls::host_str_of(self.location@) {
                    Some(h) => crate::text::contains_seq(lowercase(h), lowercase(query@)),
                    None => false,
                })
                || crate::text::contains_seq(lowercase(self.location@), lowercase(query@))),
            query@.len() == 0 ==> r,
            all_ascii(query@) ==> lowercase(query@) == ascii_lower_seq(query@),
    {
        let q = crate::text::chars_of(str_to_lowercase(query).as_str());
        let name = crate::text::chars_of(str_to_lowercase(self.friendly_name.as_str()).as_str());
        proof {
            if query@.len() == 0 {
                assert(q@ =~= Seq::<char>::empty());
                assert(name@.subrange(0, 0) =~= q@);
                assert(crate::text::matches_at(name@, q@, 0));
            }
        }
        if crate::text::contains_chars(name.as_slice(), q.as_slice()) {
            return true;
        }
        let host_ok = match self.host() {
            Some(h) => {
                let hl = crate::text::chars_of(str_to_lowercase(h.as_str()).as_str());
                crate::text::contains_chars(hl.as_slice(), q.as_slice())
            },
            None => false,
        };
        if host_ok {
            return true;
        }
        let loc = crate::text::chars_of(str_to_lowercase(self.location.as_str()).as_str());
        crate::text::contains_chars(loc.as_slice(), q.as_slice())
    }

    /// The renderer as it is shown: `name (host)`, `unknown` without a host.
    pub fn display_text(&self) -> (r: String)
        ensures
            r@ == self.friendly_name@ + " ("@ + (match crate::urls::host_str_of(self.location@) {
                Some(h) => h,
                None => "unknown"@,
            }) + ")"@,
    {
        let mut r = String::new();
        push_str(&mut r, self.friendly_name.as_str());
        push_str(&mut r, " (");
        match self.host() {
            Some(h) => push_str(&mut r, h.as_str()),
            None => push_str(&mut r, "unknown"),
        }
        push_str(&mut r, ")");
        r
    }
}

/// The name each transport state is shown under.
pub open spec fn transport_state_name(t: TransportState) -> Seq<char> {
    match t {
        TransportState::Stopped => "Stopped"@,
        TransportState::Playing => "Playing"@,
        TransportState::Paused => "Paused"@,
        TransportState::Transitioning => "Transitioning"@,
        TransportState::NoMediaPresent => "No Media"@,
        TransportState::Unknown => "Unknown"@,
    }
}

impl TransportState {
    /// The name the state is shown under.
    pub fn display_name(&self) -> (r: &'static str)
        ensures
            r@ == transport_state_name(*self),
    {
        match self {
            TransportState::Stopped => "Stopped",
            TransportState::Playing => "Playing",
            TransportState::Paused => "Paused",
            TransportState::Transitioning => "Transitioning",
            TransportState::NoMediaPresent => "No Media",
            TransportState::Unknown => "Unknown",
        }
    }
}
/// For an ASCII query, upper-casing it changes nothing of its lower-cased
/// form; with `Renderer::matches` lower-casing an ASCII query character by
/// character, `r.matches(q)` and `r.matches` of `q` upper-cased agree.
pub proof fn ascii_case_of_query_does_not_matter(q: Seq<char>)
    requires
        all_ascii(q),
    ensures
        all_ascii(ascii_upper_seq(q)),
        ascii_lower_seq(ascii_upper_seq(q)) == ascii_lower_seq(q),
{
    assert(ascii_lower_seq(ascii_upper_seq(q)) =~= ascii_lower_seq(q));
}

} // verus!
