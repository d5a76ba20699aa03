//! The plain values that the C interface hands out: device kinds, volume,
//! result codes, playability and session events. Every string that C sees as
//! a nullable pointer is held here as an `Option<String>`.

use vstd::prelude::*;
use crate::server::media_server::MediaServer;
use crate::server::state::clone_strings;
use crate::text::{chars_of, push_str, slice_range, starts_with, string_from_chars};
use crate::types::{clone_opt_string, opt_str_view, DeviceCapabilities, DeviceIcon, MediaFile, MediaInfo, Renderer};
use crate::urls::{parse_url, parsed_url};

verus! {

/// Device type enum (C-compatible)
#[derive(Debug, Clone, Copy, PartialEq, Eq, Structural)]
pub enum FFIDeviceType {
    Dlna,
    Chromecast,
}

impl FFIDeviceType {
    /// The value C sees.
    pub fn code(&self) -> (r: i32)
        ensures
            r == (match self {
                FFIDeviceType::Dlna => 0i32,
                FFIDeviceType::Chromecast => 1i32,
            }),
    {
        match self {
            FFIDeviceType::Dlna => 0,
            FFIDeviceType::Chromecast => 1,
        }
    }
}

/// Volume information
#[derive(Debug, Clone, Copy, PartialEq, Eq, Structural)]
pub struct FFIVolumeInfo {
    pub volume: u8,
    pub muted: bool,
}

/// Result codes of the C interface.
pub const FFI_OK: i32 = 0;
pub const FFI_ERROR: i32 = -1;
pub const FFI_NOT_FOUND: i32 = -2;
pub const FFI_TIMEOUT: i32 = -3;
pub const FFI_NOT_INITIALIZED: i32 = -4;

/// Playability codes of the C interface.
pub const FFI_PLAYABLE: i32 = 0;
pub const FFI_MAYBE: i32 = 1;
pub const FFI_UNSUPPORTED: i32 = 2;

/// Whether a renderer can play a request.
#[derive(Debug, Clone, Copy, PartialEq, Eq, Structural)]
pub enum Playability {
    Playable,
    Maybe,
    Unsupported,
}

/// The playability code of `p`.
pub open spec fn playability_code(p: Playability) -> i32 {
    match p {
        Playability::Playable => FFI_PLAYABLE,
        Playability::Maybe => FFI_MAYBE,
        Playability::Unsupported => FFI_UNSUPPORTED,
    }
}

/// The playability code C sees.
pub fn playability_status(p: Playability) -> (r: i32)
    ensures
        r == playability_code(p),
{
    match p {
        Playability::Playable => FFI_PLAYABLE,
        Playability::Maybe => FFI_MAYBE,
        Playability::Unsupported => FFI_UNSUPPORTED,
    }
}

/// Session event type (protocol-agnostic)
#[derive(Debug, Clone, Copy, PartialEq, Eq, Structural)]
pub enum FFISessionEventType {
    /// Volume changed (0-100)
    SessVolumeChanged,
    /// Mute state changed
    SessMuteChanged,
    /// Playback state changed (PLAYING, PAUSED, STOPPED, etc.)
    SessStateChanged,
    /// Current URI changed
    SessUriChanged,
    /// Playback position changed (in seconds)
    SessPositionChanged,
    /// Media duration changed (in seconds)
    SessDurationChanged,
    /// Play mode changed (NORMAL, SHUFFLE, REPEAT, etc.)
    SessPlayModeChanged,
    /// Connection lost or session ended
    SessSessionLost,
}

impl FFISessionEventType {
    /// The value C sees.
    pub fn code(&self) -> (r: i32)
        ensures
            0 <= r < 8,
            r == (match self {
                FFISessionEventType::SessVolumeChanged => 0i32,
                FFISessionEventType::SessMuteChanged => 1i32,
                FFISessionEventType::SessStateChanged => 2i32,
                FFISessionEventType::SessUriChanged => 3i32,
                FFISessionEventType::SessPositionChanged => 4i32,
                FFISessionEventType::SessDurationChanged => 5i32,
                FFISessionEventType::SessPlayModeChanged => 6i32,
                FFISessionEventType::SessSessionLost => 7i32,
            }),
    {
        match self {
            FFISessionEventType::SessVolumeChanged => 0,
            FFISessionEventType::SessMuteChanged => 1,
            FFISessionEventType::SessStateChanged => 2,
            FFISessionEventType::SessUriChanged => 3,
            FFISessionEventType::SessPositionChanged => 4,
            FFISessionEventType::SessDurationChanged => 5,
            FFISessionEventType::SessPlayModeChanged => 6,
            FFISessionEventType::SessSessionLost => 7,
        }
    }
}

/// An event of a renderer session.
#[derive(Debug)]
pub enum SessionEvent {
    VolumeChanged { volume: u8 },
    MuteChanged { muted: bool },
    StateChanged { state: String },
    UriChanged { uri: String },
    PositionChanged { position_secs: u64 },
    DurationChanged { duration_secs: u64 },
    PlayModeChanged { mode: String },
    SessionLost { reason: String },
}

/// Session event data (protocol-agnostic: DLNA + Chromecast): the event type,
/// the device, and the one field the type makes valid; the other fields are
/// zero, false or absent.
#[derive(Debug)]
pub struct FFISessionEvent {
    pub event_type: FFISessionEventType,
    /// Device ID (UDN for DLNA, ID for Chromecast)
    pub device_id: String,
    pub volume: u8,
    pub muted: bool,
    pub state: Option<String>,
    pub uri: Option<String>,
    pub position_secs: u64,
    pub duration_secs: u64,
    pub mode: Option<String>,
    pub reason: Option<String>,
}

pub open spec fn ostr(o: Option<String>) -> Option<Seq<char>> {
    match o {
        Some(s) => Some(s@),
        None => None,
    }
}

/// An event as plain values: type, device, volume, mute, state, URI,
/// position, duration, play mode and reason.
pub type SessionEventView = (
    FFISessionEventType,
    Seq<char>,
    u8,
    bool,
    Option<Seq<char>>,
    Option<Seq<char>>,
    u64,
    u64,
    Option<Seq<char>>,
    Option<Seq<char>>,
);

impl View for FFISessionEvent {
    type V = SessionEventView;

    open spec fn view(&self) -> SessionEventView {
        (self.event_type, self.device_id@, self.volume, self.muted, ostr(self.state), ostr(self.uri),
            self.position_secs, self.duration_secs, ostr(self.mode), ostr(self.reason))
    }
}

/// The C form of a session event of the device `device_id`.
pub open spec fn event_record(event: SessionEvent, device_id: Seq<char>) -> SessionEventView {
    match event {
        SessionEvent::VolumeChanged { volume } => (FFISessionEventType::SessVolumeChanged, device_id, volume,
            false, None, None, 0, 0, None, None),
        SessionEvent::MuteChanged { muted } => (FFISessionEventType::SessMuteChanged, device_id, 0, muted, None,
            None, 0, 0, None, None),
        SessionEvent::StateChanged { state } => (FFISessionEventType::SessStateChanged, device_id, 0, false,
            Some(state@), None, 0, 0, None, None),
        SessionEvent::UriChanged { uri } => (FFISessionEventType::SessUriChanged, device_id, 0, false, None,
            Some(uri@), 0, 0, None, None),
        SessionEvent::PositionChanged { position_secs } => (FFISessionEventType::SessPositionChanged, device_id,
            0, false, None, None, position_secs, 0, None, None),
        SessionEvent::DurationChanged { duration_secs } => (FFISessionEventType::SessDurationChanged, device_id,
            0, false, None, None, 0, duration_secs, None, None),
        SessionEvent::PlayModeChanged { mode } => (FFISessionEventType::SessPlayModeChanged, device_id, 0, false,
            None, None, 0, 0, Some(mode@), None),
        SessionEvent::SessionLost { reason } => (FFISessionEventType::SessSessionLost, device_id, 0, false, None,
            None, 0, 0, None, Some(reason@)),
    }
}

fn blank(event_type: FFISessionEventType, device_id: &str) -> (r: FFISessionEvent)
    ensures
        r@ == (event_type, device_id@, 0u8, false, None::<Seq<char>>, None::<Seq<char>>, 0u64, 0u64,
            None::<Seq<char>>, None::<Seq<char>>),
{
    FFISessionEvent {
        event_type,
        device_id: String::from_str(device_id),
        volume: 0,
        muted: false,
        state: None,
        uri: None,
        position_secs: 0,
        duration_secs: 0,
        mode: None,
        reason: None,
    }
}

impl FFISessionEvent {
    /// Convert from a session event to the C form
    pub fn from_session_event(event: &SessionEvent, device_id: &str) -> (r: Self)
        ensures
            r@ == event_record(*event, device_id@),
    {
        match event {
            SessionEvent::VolumeChanged { volume } => {
                let mut r = blank(FFISessionEventType::SessVolumeChanged, device_id);
                r.volume = *volume;
                r
            },
            SessionEvent::MuteChanged { muted } => {
                let mut r = blank(FFISessionEventType::SessMuteChanged, device_id);
                r.muted = *muted;
                r
            },
            SessionEvent::StateChanged { state } => {
                let mut r = blank(FFISessionEventType::SessStateChanged, device_id);
                r.state = Some(state.clone());
                r
            },
            SessionEvent::UriChanged { uri } => {
                let mut r = blank(FFISessionEventType::SessUriChanged, device_id);
                r.uri = Some(uri.clone());
                r
            },
            SessionEvent::PositionChanged { position_secs } => {
                let mut r = blank(FFISessionEventType::SessPositionChanged, device_id);
                r.position_secs = *position_secs;
                r
            },
            SessionEvent::DurationChanged { duration_secs } => {
                let mut r = blank(FFISessionEventType::SessDurationChanged, device_id);
                r.duration_secs = *duration_secs;
                r
            },
            SessionEvent::PlayModeChanged { mode } => {
                let mut r = blank(FFISessionEventType::SessPlayModeChanged, device_id);
                r.mode = Some(mode.clone());
                r
            },
            SessionEvent::SessionLost { reason } => {
                let mut r = blank(FFISessionEventType::SessSessionLost, device_id);
                r.reason = Some(reason.clone());
                r
            },
        }
    }
}

/// What a renderer can make of a request, with the reason where it is not
/// plainly playable.
#[derive(Debug)]
pub struct PlayabilityReport {
    pub playability: Playability,
    pub reason: Option<String>,
}

/// Playability information for a media request
#[derive(Debug)]
pub struct FFIPlayability {
    pub status: i32,
    pub reason: Option<String>,
}

impl FFIPlayability {
    pub fn from_report(report: &PlayabilityReport) -> (r: Self)
        ensures
            r.status == playability_code(report.playability),
            ostr(r.reason) == ostr(report.reason),
    {
        FFIPlayability { status: playability_status(report.playability), reason: clone_opt_string(&report.reason) }
    }
}

/// Device icon information
#[derive(Debug)]
pub struct FFIDeviceIcon {
    pub mime_type: String,
    pub width: u32,
    pub height: u32,
    pub depth: u32,
    pub url: String,
}

/// The UPnP device type given for DLNA renderers.
pub open spec fn media_renderer_type() -> Seq<char> {
    "urn:schemas-upnp-org:device:MediaRenderer:1"@
}

/// A renderer is a Chromecast when its location's scheme is `cast`.
pub open spec fn device_type_of(location: Seq<char>) -> FFIDeviceType {
    match parsed_url(location) {
        Ok(u) => if u.scheme == "cast"@ { FFIDeviceType::Chromecast } else { FFIDeviceType::Dlna },
        Err(_) => FFIDeviceType::Dlna,
    }
}

/// Renderer device information
#[derive(Debug)]
pub struct FFIRenderer {
    pub name: String,
    pub location: String,
    pub device_type: FFIDeviceType,
    /// UPnP device type string; none for a Chromecast
    pub upnp_device_type: Option<String>,
    pub manufacturer: Option<String>,
    pub model: Option<String>,
    pub mac_address: Option<String>,
    pub icons: Vec<FFIDeviceIcon>,
    pub firmware_version: Option<String>,
    pub capabilities: Option<String>,
}

/// The C icon is the icon `i`.
pub open spec fn same_icon(c: FFIDeviceIcon, i: DeviceIcon) -> bool {
    c.mime_type@ == i.mime_type@ && c.width == i.width && c.height == i.height && c.depth == i.depth
        && c.url@ == i.url@
}

impl FFIRenderer {
    pub fn from_renderer(r: &Renderer) -> (f: Self)
        ensures
            f.name@ == r.friendly_name@,
            f.location@ == r.location@,
            f.device_type == device_type_of(r.location@),
            ostr(f.upnp_device_type) == (if f.device_type == FFIDeviceType::Dlna {
                Some(media_renderer_type())
            } else {
                None
            }),
            ostr(f.manufacturer) == opt_str_view(r.manufacturer),
            ostr(f.model) == opt_str_view(r.model_name),
            ostr(f.mac_address) == opt_str_view(r.mac_address),
            f.icons@.len() == r.icons@.len(),
            forall|i: int| 0 <= i < r.icons@.len() ==> same_icon(#[trigger] f.icons@[i], r.icons@[i]),
            ostr(f.firmware_version) == opt_str_view(r.firmware_version),
            ostr(f.capabilities) == opt_str_view(r.capabilities),
    {
        let device_type = match parse_url(r.location.as_str()) {
            Ok(u) => if crate::types::str_eq(u.scheme.as_str(), "cast") {
                FFIDeviceType::Chromecast
            } else {
                FFIDeviceType::Dlna
            },
            Err(_) => FFIDeviceType::Dlna,
        };
        proof {
            reveal_strlit("cast");
        }
        let upnp_device_type = match device_type {
            FFIDeviceType::Dlna => Some(String::from_str("urn:schemas-upnp-org:device:MediaRenderer:1")),
            FFIDeviceType::Chromecast => None,
        };
        let mut icons: Vec<FFIDeviceIcon> = Vec::new();
        let mut i: usize = 0;
        while i < r.icons.len()
            invariant
                i <= r.icons@.len(),
                icons@.len() == i,
                forall|k: int| 0 <= k < i ==> same_icon(#[trigger] icons@[k], r.icons@[k]),
            decreases r.icons@.len() - i,
        {
            let icon = &r.icons[i];
            icons.push(FFIDeviceIcon {
                mime_type: icon.mime_type.clone(),
                width: icon.width,
                height: icon.height,
                depth: icon.depth,
                url: icon.url.clone(),
            });
            i = i + 1;
        }
        FFIRenderer {
            name: r.friendly_name.clone(),
            location: r.location.clone(),
            device_type,
            upnp_device_type,
            manufacturer: clone_opt_string(&r.manufacturer),
            model: clone_opt_string(&r.model_name),
            mac_address: clone_opt_string(&r.mac_address),
            icons,
            firmware_version: clone_opt_string(&r.firmware_version),
            capabilities: clone_opt_string(&r.capabilities),
        }
    }
}

/// Media file information; unknown numbers are 0
#[derive(Debug)]
pub struct FFIMediaFile {
    pub id: String,
    pub filename: String,
    pub path: String,
    pub mime_type: String,
    pub size: u64,
    pub duration_secs: u64,
    pub title: Option<String>,
    pub artist: Option<String>,
    pub year: u32,
    pub width: u32,
    pub height: u32,
    pub video_codec: Option<String>,
    pub audio_codec: Option<String>,
}

/// Whole seconds of an optional duration in milliseconds; 0 when unknown.
pub open spec fn whole_secs(ms: Option<u64>) -> u64 {
    match ms {
        Some(d) => d / 1000,
        None => 0,
    }
}

impl FFIMediaFile {
    pub fn from_media_file(f: &MediaFile) -> (r: Self)
        ensures
            r.id@ == f.id@,
            r.filename@ == f.filename@,
            r.path@ == f.path@,
            r.mime_type@ == f.mime_type@,
            r.size == f.size,
            r.duration_secs == whole_secs(f.duration),
            ostr(r.title) == opt_str_view(f.title),
            ostr(r.artist) == opt_str_view(f.artist),
            r.year == (match f.year {
                Some(y) => y,
                None => 0,
            }),
            (r.width, r.height) == (match f.resolution {
                Some(wh) => wh,
                None => (0u32, 0u32),
            }),
            ostr(r.video_codec) == opt_str_view(f.video_codec),
            ostr(r.audio_codec) == opt_str_view(f.audio_codec),
    {
        let (width, height) = match f.resolution {
            Some(wh) => wh,
            None => (0, 0),
        };
        FFIMediaFile {
            id: f.id.clone(),
            filename: f.filename.clone(),
            path: f.path.clone(),
            mime_type: f.mime_type.clone(),
            size: f.size,
            duration_secs: match f.duration {
                Some(d) => d / 1000,
                None => 0,
            },
            title: clone_opt_string(&f.title),
            artist: clone_opt_string(&f.artist),
            year: match f.year {
                Some(y) => y,
                None => 0,
            },
            width,
            height,
            video_codec: clone_opt_string(&f.video_codec),
            audio_codec: clone_opt_string(&f.audio_codec),
        }
    }
}

/// Media information from GetMediaInfo (UPnP AVTransport)
#[derive(Debug)]
pub struct FFIMediaInfo {
    pub nr_tracks: u32,
    /// 0 if unknown
    pub media_duration_secs: u64,
    /// true if duration is valid
    pub has_duration: bool,
    pub current_uri: Option<String>,
    /// e.g., "NETWORK", "HDD", "CD-DA"
    pub play_medium: Option<String>,
    pub next_uri: Option<String>,
}

impl FFIMediaInfo {
    pub fn from_media_info(info: &MediaInfo) -> (r: Self)
        ensures
            r.nr_tracks == info.nr_tracks,
            r.media_duration_secs == whole_secs(info.media_duration),
            r.has_duration == info.media_duration is Some,
            ostr(r.current_uri) == opt_str_view(info.current_uri),
            ostr(r.play_medium) == opt_str_view(info.play_medium),
            ostr(r.next_uri) == opt_str_view(info.next_uri),
    {
        FFIMediaInfo {
            nr_tracks: info.nr_tracks,
            media_duration_secs: match info.media_duration {
                Some(d) => d / 1000,
                None => 0,
            },
            has_duration: info.media_duration.is_some(),
            current_uri: clone_opt_string(&info.current_uri),
            play_medium: clone_opt_string(&info.play_medium),
            next_uri: clone_opt_string(&info.next_uri),
        }
    }
}

/// Device capabilities from GetDeviceCapabilities (UPnP AVTransport)
#[derive(Debug)]
pub struct FFIDeviceCapabilities {
    /// e.g., ["NETWORK", "HDD"]
    pub play_media: Vec<String>,
    /// Usually ["NOT_IMPLEMENTED"]
    pub rec_media: Vec<String>,
    /// Usually ["NOT_IMPLEMENTED"]
    pub rec_quality_modes: Vec<String>,
}

impl FFIDeviceCapabilities {
    pub fn from_device_capabilities(caps: &DeviceCapabilities) -> (r: Self)
        ensures
            r.play_media@ == caps.play_media@,
            r.rec_media@ == caps.rec_media@,
            r.rec_quality_modes@ == caps.rec_quality_modes@,
    {
        FFIDeviceCapabilities {
            play_media: clone_strings(&caps.play_media),
            rec_media: clone_strings(&caps.rec_media),
            rec_quality_modes: clone_strings(&caps.rec_quality_modes),
        }
    }
}

/// The play mode sent to a renderer for a queue's repeat mode and shuffle.
pub open spec fn repeat_mode_name(mode: Option<Seq<char>>, shuffle: bool) -> Seq<char> {
    let m = match mode {
        Some(m) => m,
        None => "none"@,
    };
    if m == "one"@ {
        "REPEAT_SINGLE"@
    } else if m == "all"@ {
        if shuffle { "REPEAT_ALL_AND_SHUFFLE"@ } else { "REPEAT_ALL"@ }
    } else {
        "REPEAT_OFF"@
    }
}

pub fn map_repeat_mode(mode: Option<&str>, shuffle: bool) -> (r: String)
    ensures
        r@ == repeat_mode_name(match mode {
            Some(m) => Some(m@),
            None => None,
        }, shuffle),
{
    proof {
        reveal_strlit("none");
        reveal_strlit("one");
        reveal_strlit("all");
        reveal_strlit("REPEAT_SINGLE");
        reveal_strlit("REPEAT_ALL_AND_SHUFFLE");
        reveal_strlit("REPEAT_ALL");
        reveal_strlit("REPEAT_OFF");
    }
    let m = match mode {
        Some(m) => m,
        None => "none",
    };
    if crate::types::str_eq(m, "one") {
        String::from_str("REPEAT_SINGLE")
    } else if crate::types::str_eq(m, "all") {
        if shuffle {
            String::from_str("REPEAT_ALL_AND_SHUFFLE")
        } else {
            String::from_str("REPEAT_ALL")
        }
    } else {
        String::from_str("REPEAT_OFF")
    }
}

/// One item of a queue handed over by the app: a URL, or a media ID of the
/// library (or `url:` and a URL), with optional overrides.
#[derive(Debug)]
pub struct QueueSyncItem {
    pub url: Option<String>,
    pub media_id: Option<String>,
    pub content_type: Option<String>,
    pub subtitle_url: Option<String>,
    pub title: Option<String>,
}

/// A queue handed over by the app.
#[derive(Debug)]
pub struct QueueSyncPayload {
    pub items: Vec<QueueSyncItem>,
    pub repeat_mode: Option<String>,
    pub shuffle: Option<bool>,
}

/// A request to play one URL.
#[derive(Debug)]
pub struct PlayRequest {
    pub url: String,
    pub content_type: Option<String>,
    pub subtitle_url: Option<String>,
    pub title: Option<String>,
}

/// A play request as plain values: URL, content type, subtitle URL, title.
pub type PlayRequestView = (Seq<char>, Option<Seq<char>>, Option<Seq<char>>, Option<Seq<char>>);

impl View for PlayRequest {
    type V = PlayRequestView;

    open spec fn view(&self) -> PlayRequestView {
        (self.url@, ostr(self.content_type), ostr(self.subtitle_url), ostr(self.title))
    }
}

/// The media ID names a library file (it is not `url:` and a URL).
pub open spec fn names_library_file(m: Seq<char>) -> bool {
    !starts_with(m, "url:"@)
}

/// The URL of a queue item: its own, the one behind `url:`, or the file's
/// URL on the media server at `base`.
pub open spec fn item_url(item: QueueSyncItem, has_server: bool, base: Seq<char>) -> Result<Seq<char>, Seq<char>> {
    match item.url {
        Some(u) => Ok(u@),
        None => match item.media_id {
            Some(m) => if !names_library_file(m@) {
                Ok(m@.skip(4))
            } else if !has_server {
                Err("Server not configured"@)
            } else {
                Ok(base + "/media/"@ + m@)
            },
            None => Err("Queue item missing url or mediaId"@),
        },
    }
}

/// The play request of a queue item; a library file fills in the content
/// type (its MIME type) and the title (its title, else its file name) that
/// the item leaves open.
pub open spec fn item_request(item: QueueSyncItem, server: Option<MediaServer>, base: Seq<char>) -> Result<PlayRequestView, Seq<char>> {
    match item_url(item, server is Some, base) {
        Err(e) => Err(e),
        Ok(url) => {
            let ct = ostr(item.content_type);
            let title = ostr(item.title);
            let sub = ostr(item.subtitle_url);
            match (item.media_id, server) {
                (Some(m), Some(srv)) => if names_library_file(m@) {
                    match srv.library().file_at(m@) {
                        Some(f) => Ok((
                            url,
                            if ct is None { Some(f.mime_type@) } else { ct },
                            sub,
                            if title is None {
                                match f.title {
                                    Some(t) => Some(t@),
                                    None => Some(f.filename@),
                                }
                            } else {
                                title
                            },
                        )),
                        None => Err("Media ID not found: "@ + m@),
                    }
                } else {
                    Ok((url, ct, sub, title))
                },
                _ => Ok((url, ct, sub, title)),
            }
        },
    }
}

/// The play requests of the first `n` items, or the error of the first item
/// that has none.
pub open spec fn queue_requests(items: Seq<QueueSyncItem>, server: Option<MediaServer>, base: Seq<char>, n: nat) -> Result<Seq<PlayRequestView>, Seq<char>>
    decreases n,
{
    if n == 0 {
        Ok(Seq::empty())
    } else {
        match queue_requests(items, server, base, (n - 1) as nat) {
            Err(e) => Err(e),
            Ok(v) => match item_request(items[n - 1], server, base) {
                Err(e) => Err(e),
                Ok(r) => Ok(v.push(r)),
            },
        }
    }
}

proof fn lemma_queue_error_stays(items: Seq<QueueSyncItem>, server: Option<MediaServer>, base: Seq<char>, k: nat, m: nat)
    requires
        k <= m,
        queue_requests(items, server, base, k) is Err,
    ensures
        queue_requests(items, server, base, m) == queue_requests(items, server, base, k),
    decreases m,
{
    if m > k {
        lemma_queue_error_stays(items, server, base, k, (m - 1) as nat);
    }
}

fn item_play_request(item: &QueueSyncItem, server: &Option<MediaServer>, base_url: &str) -> (r: Result<PlayRequest, String>)
    requires
        server matches Some(s) ==> s.wf(),
    ensures
        match r {
            Ok(p) => item_request(*item, *server, base_url@) == Ok::<PlayRequestView, Seq<char>>(p@),
            Err(e) => item_request(*item, *server, base_url@) == Err::<PlayRequestView, Seq<char>>(e@),
        },
{
    proof {
        reveal_strlit("url:");
        reveal_strlit("Server not configured");
        reveal_strlit("/media/");
        reveal_strlit("Queue item missing url or mediaId");
        reveal_strlit("Media ID not found: ");
    }
    let url: String = match &item.url {
        Some(u) => u.clone(),
        None => match &item.media_id {
            Some(m) => {
                if crate::types::str_starts_with(m.as_str(), "url:") {
                    let mc = chars_of(m.as_str());
                    let rest = slice_range(mc.as_slice(), 4, mc.len());
                    assert(rest@ =~= m@.skip(4));
                    string_from_chars(rest.as_slice())
                } else if server.is_none() {
                    return Err(String::from_str("Server not configured"));
                } else {
                    let mut u = String::from_str(base_url);
                    push_str(&mut u, "/media/");
                    push_str(&mut u, m.as_str());
                    u
                }
            },
            None => {
                return Err(String::from_str("Queue item missing url or mediaId"));
            },
        },
    };
    let mut content_type = clone_opt_string(&item.content_type);
    let mut title = clone_opt_string(&item.title);
    match (&item.media_id, server) {
        (Some(m), Some(srv)) => {
            if !crate::types::str_starts_with(m.as_str(), "url:") {
                match srv.get_file(m.as_str()) {
                    Some(file) => {
                        if content_type.is_none() {
                            content_type = Some(file.mime_type.clone());
                        }
                        if title.is_none() {
                            title = match &file.title {
                                Some(t) => Some(t.clone()),
                                None => Some(file.filename.clone()),
                            };
                        }
                    },
                    None => {
                        let mut e = String::from_str("Media ID not found: ");
                        push_str(&mut e, m.as_str());
                        return Err(e);
                    },
                }
            }
        },
        _ => {},
    }
    Ok(PlayRequest { url, content_type, subtitle_url: clone_opt_string(&item.subtitle_url), title })
}

/// The play requests of a queue's items, in order; the first item without
/// one gives the error.
pub fn build_queue_requests(server: &Option<MediaServer>, base_url: &str, items: &Vec<QueueSyncItem>) -> (r: Result<Vec<PlayRequest>, String>)
    requires
        server matches Some(s) ==> s.wf(),
    ensures
        match r {
            Ok(v) => queue_requests(items@, *server, base_url@, items@.len()) == Ok::<Seq<PlayRequestView>, Seq<char>>(v@.map_values(|p: PlayRequest| p@)),
            Err(e) => queue_requests(items@, *server, base_url@, items@.len()) == Err::<Seq<PlayRequestView>, Seq<char>>(e@),
        },
{
    let mut requests: Vec<PlayRequest> = Vec::new();
    let mut i: usize = 0;
    assert(requests@.map_values(|p: PlayRequest| p@) =~= Seq::<PlayRequestView>::empty());
    while i < items.len()
        invariant
            i <= items@.len(),
            server matches Some(s) ==> s.wf(),
            queue_requests(items@, *server, base_url@, i as nat) == Ok::<Seq<PlayRequestView>, Seq<char>>(requests@.map_values(|p: PlayRequest| p@)),
        decreases items@.len() - i,
    {
        let ghost before = requests@;
        match item_play_request(&items[i], server, base_url) {
            Ok(p) => {
                requests.push(p);
                assert(requests@.map_values(|p: PlayRequest| p@) =~= before.map_values(|p: PlayRequest| p@).push(p@));
            },
            Err(e) => {
                proof {
                    lemma_queue_error_stays(items@, *server, base_url@, (i + 1) as nat, items@.len());
                }
                return Err(e);
            },
        }
        i = i + 1;
    }
    Ok(requests)
}

/// The discovery timeout the C interface uses for a requested one: the
/// requested seconds kept between 30 and 120.
pub fn discovery_timeout_secs(requested: u64) -> (r: u64)
    ensures
        r == (if requested < 30 { 30 } else if requested > 120 { 120 } else { requested }),
        30 <= r <= 120,
{
    if requested < 30 {
        30
    } else if requested > 120 {
        120
    } else {
        requested
    }
}

} // verus!
