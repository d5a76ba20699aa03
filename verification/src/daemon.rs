//! Talking to the daemon: the command each command-line command becomes, and
//! the text shown for each answer. Sending and printing are left to the
//! caller.

use vstd::prelude::*;
use crate::cli::{Commands, daemon_control};
use crate::text::{chars_of, decimal, push_char, push_decimal, push_str};
use crate::types::{lowercase, str_eq, str_to_lowercase};
use crate::fixed::{fixed_text, fixed_text_exec};
use crate::utils::{clock, duration_fits, duration_parse, format_duration, parse_duration};

verus! {

/// A request to the daemon.
#[derive(Debug)]
#[allow(inconsistent_fields)]
pub enum DaemonCommand {
    List { timeout_secs: u64 },
    /// Discover renderers again.
    Refresh { timeout_secs: u64 },
    /// The renderers found before, without a new search.
    ListCached,
    Push { file: String, device: String, port: u16 },
    PlayUrl { url: String, device: String },
    Pause { device: String },
    Resume { device: String },
    Stop { device: String },
    Wake { device: String, mac: Option<String> },
    Seek { device: String, position_secs: u64 },
    Status { device: String },
    SetVolume { device: String, volume: u8 },
    GetVolume { device: String },
    /// Change the volume by `delta` percent from what the device reports.
    AdjustVolume { device: String, delta: i32 },
    Mute { device: String, mute: Option<bool> },
    QueueAdd {
        source: String,
        title: Option<String>,
        content_type: Option<String>,
        subtitle_url: Option<String>,
        device: String,
        position: Option<usize>,
    },
    QueueRemove { device: String, index: usize },
    QueueClear { device: String },
    QueueList { device: String },
    Next { device: String },
    Prev { device: String },
    Shuffle { device: String, enabled: bool },
    Repeat { device: String, mode: String },
    SavePosition { device: String },
    ListPositions,
    ResumeFrom { device: String, uri: String },
    ClearPosition { uri: String },
    Subscribe { device: String },
    Unsubscribe { device: String },
    PollEvents { device: Option<String> },
    ListMedia,
    SetMediaDir { path: String },
    AddMediaDir { path: String },
    RemoveMediaDir { path: String },
    ClearMedia,
    SetAutoRefresh { enabled: bool },
    GetAutoRefresh,
    Info,
}

/// A switch given on the command line is on where it reads `on` in any case,
/// `1` or `true`.
pub open spec fn switch_on(s: Seq<char>) -> bool {
    lowercase(s) == "on"@ || s == "1"@ || s == "true"@
}

pub fn is_switch_on(s: &str) -> (r: bool)
    ensures
        r == switch_on(s@),
{
    str_eq(str_to_lowercase(s).as_str(), "on") || str_eq(s, "1") || str_eq(s, "true")
}

/// The daemon request of a command; a seek position that is no duration is
/// refused with the message of `parse_duration`.
pub open spec fn daemon_request_holds(c: Commands, r: Result<DaemonCommand, String>) -> bool {
    match c {
        Commands::Seek { position, device } => match duration_parse(position@) {
            Ok(secs) => r matches Ok(DaemonCommand::Seek { device: d, position_secs }) && d == device
                && position_secs == secs,
            Err(m) => r matches Err(x) && x@ == m,
        },
        Commands::Volume { level, device } => match level {
            Some(v) => r matches Ok(DaemonCommand::SetVolume { device: d, volume }) && d == device && volume == v,
            None => r matches Ok(DaemonCommand::GetVolume { device: d }) && d == device,
        },
        Commands::Mute { state, device } => r matches Ok(DaemonCommand::Mute { device: d, mute }) && d == device
            && mute == (match state {
                Some(s) => Some(switch_on(s@)),
                None => None,
            }),
        Commands::Shuffle { state, device } => r matches Ok(DaemonCommand::Shuffle { device: d, enabled })
            && d == device && enabled == switch_on(state@),
        Commands::AutoRefresh { state } => match state {
            Some(s) => r matches Ok(DaemonCommand::SetAutoRefresh { enabled }) && enabled == switch_on(s@),
            None => r matches Ok(DaemonCommand::GetAutoRefresh),
        },
        Commands::List { timeout } => r matches Ok(DaemonCommand::List { timeout_secs }) && timeout_secs == timeout,
        Commands::Push { file, device, port } => r matches Ok(DaemonCommand::Push { file: f, device: d, port: p })
            && f == file && d == device && p == port,
        Commands::Play { url, device } => r matches Ok(DaemonCommand::PlayUrl { url: u, device: d }) && u == url
            && d == device,
        Commands::Pause { device } => r matches Ok(DaemonCommand::Pause { device: d }) && d == device,
        Commands::Resume { device } => r matches Ok(DaemonCommand::Resume { device: d }) && d == device,
        Commands::Stop { device } => r matches Ok(DaemonCommand::Stop { device: d }) && d == device,
        Commands::Wake { device, mac } => r matches Ok(DaemonCommand::Wake { device: d, mac: m }) && d == device
            && m == mac,
        Commands::Status { device } => r matches Ok(DaemonCommand::Status { device: d }) && d == device,
        Commands::QueueAdd { source, title, content_type, subtitle_url, device, position } => r matches Ok(
            DaemonCommand::QueueAdd { source: s, title: t, content_type: ct, subtitle_url: su, device: d, position: p },
        ) && s == source && t == title && ct == content_type && su == subtitle_url && d == device && p == position,
        Commands::QueueRemove { index, device } => r matches Ok(DaemonCommand::QueueRemove { device: d, index: i })
            && d == device && i == index,
        Commands::QueueClear { device } => r matches Ok(DaemonCommand::QueueClear { device: d }) && d == device,
        Commands::QueueList { device } => r matches Ok(DaemonCommand::QueueList { device: d }) && d == device,
        Commands::Next { device } => r matches Ok(DaemonCommand::Next { device: d }) && d == device,
        Commands::Prev { device } => r matches Ok(DaemonCommand::Prev { device: d }) && d == device,
        Commands::Repeat { mode, device } => r matches Ok(DaemonCommand::Repeat { device: d, mode: m }) && d == device
            && m == mode,
        Commands::SavePosition { device } => r matches Ok(DaemonCommand::SavePosition { device: d }) && d == device,
        Commands::ListPositions => r matches Ok(DaemonCommand::ListPositions),
        Commands::ResumeFrom { url, device } => r matches Ok(DaemonCommand::ResumeFrom { device: d, uri: u })
            && d == device && u == url,
        Commands::ClearPosition { url } => r matches Ok(DaemonCommand::ClearPosition { uri: u }) && u == url,
        Commands::Subscribe { device } => r matches Ok(DaemonCommand::Subscribe { device: d }) && d == device,
        Commands::Unsubscribe { device } => r matches Ok(DaemonCommand::Unsubscribe { device: d }) && d == device,
        Commands::PollEvents { device } => r matches Ok(DaemonCommand::PollEvents { device: d }) && d == device,
        Commands::ListMedia => r matches Ok(DaemonCommand::ListMedia),
        Commands::SetMediaDir { path } => r matches Ok(DaemonCommand::SetMediaDir { path: p }) && p == path,
        Commands::AddMediaDir { path } => r matches Ok(DaemonCommand::AddMediaDir { path: p }) && p == path,
        Commands::RemoveMediaDir { path } => r matches Ok(DaemonCommand::RemoveMediaDir { path: p }) && p == path,
        Commands::ClearMedia => r matches Ok(DaemonCommand::ClearMedia),
        _ => false,
    }
}

/// Route a command through the daemon: the request it becomes.
pub fn daemon_request(command: Commands) -> (r: Result<DaemonCommand, String>)
    requires
        !daemon_control(command),
        !(command is Serve),
        command matches Commands::Seek { position, .. } ==> duration_fits(position@),
    ensures
        daemon_request_holds(command, r),
{
    match command {
        Commands::List { timeout } => Ok(DaemonCommand::List { timeout_secs: timeout }),
        Commands::Push { file, device, port } => Ok(DaemonCommand::Push { file, device, port }),
        Commands::Play { url, device } => Ok(DaemonCommand::PlayUrl { url, device }),
        Commands::Pause { device } => Ok(DaemonCommand::Pause { device }),
        Commands::Resume { device } => Ok(DaemonCommand::Resume { device }),
        Commands::Stop { device } => Ok(DaemonCommand::Stop { device }),
        Commands::Wake { device, mac } => Ok(DaemonCommand::Wake { device, mac }),
        Commands::Seek { position, device } => match parse_duration(position.as_str()) {
            Ok(secs) => Ok(DaemonCommand::Seek { device, position_secs: secs }),
            Err(m) => Err(m),
        },
        Commands::Status { device } => Ok(DaemonCommand::Status { device }),
        Commands::Volume { level, device } => match level {
            Some(vol) => Ok(DaemonCommand::SetVolume { device, volume: vol }),
            None => Ok(DaemonCommand::GetVolume { device }),
        },
        Commands::Mute { state, device } => {
            let mute = match state {
                Some(s) => Some(is_switch_on(s.as_str())),
                None => None,
            };
            Ok(DaemonCommand::Mute { device, mute })
        },
        Commands::QueueAdd { source, title, content_type, subtitle_url, device, position } => Ok(
            DaemonCommand::QueueAdd { source, title, content_type, subtitle_url, device, position },
        ),
        Commands::QueueRemove { index, device } => Ok(DaemonCommand::QueueRemove { device, index }),
        Commands::QueueClear { device } => Ok(DaemonCommand::QueueClear { device }),
        Commands::QueueList { device } => Ok(DaemonCommand::QueueList { device }),
        Commands::Next { device } => Ok(DaemonCommand::Next { device }),
        Commands::Prev { device } => Ok(DaemonCommand::Prev { device }),
        Commands::Shuffle { state, device } => {
            let enabled = is_switch_on(state.as_str());
            Ok(DaemonCommand::Shuffle { device, enabled })
        },
        Commands::Repeat { mode, device } => Ok(DaemonCommand::Repeat { device, mode }),
        Commands::SavePosition { device } => Ok(DaemonCommand::SavePosition { device }),
        Commands::ListPositions => Ok(DaemonCommand::ListPositions),
        Commands::ResumeFrom { url, device } => Ok(DaemonCommand::ResumeFrom { device, uri: url }),
        Commands::ClearPosition { url } => Ok(DaemonCommand::ClearPosition { uri: url }),
        Commands::Subscribe { device } => Ok(DaemonCommand::Subscribe { device }),
        Commands::Unsubscribe { device } => Ok(DaemonCommand::Unsubscribe { device }),
        Commands::PollEvents { device } => Ok(DaemonCommand::PollEvents { device }),
        Commands::ListMedia => Ok(DaemonCommand::ListMedia),
        Commands::SetMediaDir { path } => Ok(DaemonCommand::SetMediaDir { path }),
        Commands::AddMediaDir { path } => Ok(DaemonCommand::AddMediaDir { path }),
        Commands::RemoveMediaDir { path } => Ok(DaemonCommand::RemoveMediaDir { path }),
        Commands::ClearMedia => Ok(DaemonCommand::ClearMedia),
        Commands::AutoRefresh { state } => match state {
            Some(s) => {
                let enabled = is_switch_on(s.as_str());
                Ok(DaemonCommand::SetAutoRefresh { enabled })
            },
            None => Ok(DaemonCommand::GetAutoRefresh),
        },
        Commands::StartDaemon { .. } | Commands::StopDaemon | Commands::PingDaemon | Commands::Tui
        | Commands::Serve { .. } => {
            proof {
                assert(false);
            }
            Err(String::new())
        },
    }
}


/// A renderer as the daemon lists it.
#[derive(Debug)]
pub struct RendererEntry {
    pub name: String,
    pub location: String,
    pub manufacturer: Option<String>,
    pub model: Option<String>,
}

/// A queue item as the daemon lists it.
#[derive(Debug)]
pub struct QueueEntry {
    pub index: usize,
    pub title: String,
    /// Where the item plays from: a URL or a library path.
    pub source: String,
    pub is_url: bool,
    pub duration_secs: Option<u64>,
}

/// A saved playback position.
#[derive(Debug)]
pub struct PositionEntry {
    pub uri: String,
    pub position_secs: u64,
    pub duration_secs: u64,
    pub device: String,
    /// When it was saved (seconds since the Unix epoch).
    pub saved_at: u64,
}

/// A media file of the daemon's library.
#[derive(Debug)]
pub struct MediaFileInfo {
    pub path: String,
    pub filename: String,
    pub size: u64,
    pub mime_type: String,
    /// Duration in seconds, where known.
    pub duration_secs: Option<u64>,
}

/// A media file as a value: path, file name, size, MIME type and duration.
pub type InfoView = (Seq<char>, Seq<char>, u64, Seq<char>, Option<u64>);

impl View for MediaFileInfo {
    type V = InfoView;

    open spec fn view(&self) -> InfoView {
        (self.path@, self.filename@, self.size, self.mime_type@, self.duration_secs)
    }
}

impl MediaFileInfo {
    /// A copy of the file's record.
    pub fn copy(&self) -> (r: MediaFileInfo)
        ensures
            r@ == self@,
    {
        MediaFileInfo {
            path: self.path.clone(),
            filename: self.filename.clone(),
            size: self.size,
            mime_type: self.mime_type.clone(),
            duration_secs: self.duration_secs,
        }
    }
}

/// A size in megabytes with one decimal (`{:.1}` of the size as a double
/// divided by 1024 twice).
pub open spec fn mb_text(size: u64) -> Seq<char> {
    fixed_text(size as nat, 20, 1)
}

/// A size in megabytes with one decimal.
pub fn size_mb_text(size: u64) -> (r: String)
    ensures
        r@ == mb_text(size),
{
    fixed_text_exec(size, 20, 1)
}

/// An event a renderer sent.
#[derive(Debug)]
pub enum Notification {
    VolumeChanged { device: String, volume: u8 },
    MuteChanged { device: String, muted: bool },
    TransportStateChanged { device: String, state: String },
    CurrentUriChanged { device: String, uri: String },
    SubscriptionLost { device: String, service: String },
}

/// The daemon's reply to a request: done (with data where the request asks
/// for some), or refused with a message.
#[derive(Debug)]
pub enum Response {
    Success { data: Option<ResponseData> },
    Failure { message: String },
}

/// What the daemon answers.
#[derive(Debug)]
pub enum ResponseData {
    Renderers { renderers: Vec<RendererEntry> },
    Playback { state: String, position_secs: u64, duration_secs: u64, current_uri: Option<String> },
    Streaming { device: String, file: String, url: String },
    DaemonInfo { version: String, uptime_secs: u64, active_streams: usize },
    Volume { volume: u8, muted: bool },
    Pong,
    Queue { items: Vec<QueueEntry>, current_index: Option<usize>, shuffle: bool, repeat: String },
    Position { uri: String, position_secs: u64, duration_secs: u64, device: String },
    Positions { positions: Vec<PositionEntry> },
    MediaFiles { files: Vec<MediaFileInfo> },
    Events { events: Vec<Notification> },
    FileCount { count: usize },
    AutoRefresh { enabled: bool },
}

pub open spec fn nl() -> Seq<char> {
    seq!['\n']
}

pub open spec fn on_off(b: bool) -> Seq<char> {
    if b { "on"@ } else { "off"@ }
}

pub open spec fn renderer_text(r: RendererEntry) -> Seq<char> {
    "  "@ + r.name@ + nl() + "    Location: "@ + r.location@ + nl()
        + (match r.manufacturer { Some(m) => "    Manufacturer: "@ + m@ + nl(), None => Seq::empty() })
        + (match r.model { Some(m) => "    Model: "@ + m@ + nl(), None => Seq::empty() })
        + nl()
}

pub open spec fn renderers_text(rs: Seq<RendererEntry>) -> Seq<char>
    decreases rs.len(),
{
    if rs.len() == 0 { Seq::empty() } else { renderers_text(rs.drop_last()) + renderer_text(rs.last()) }
}

/// A number right-aligned in two columns.
pub open spec fn width2(n: nat) -> Seq<char> {
    if n < 10 { seq![' '] + decimal(n) } else { decimal(n) }
}

pub open spec fn queue_text(q: QueueEntry, current: Option<usize>) -> Seq<char> {
    (if current == Some(q.index) { ">"@ } else { " "@ }) + " "@ + width2(q.index as nat) + ". "@ + q.title@ + " ["@
        + (match q.duration_secs { Some(d) => clock(d as nat), None => "--:--"@ }) + "]"@ + nl()
}

pub open spec fn queue_items_text(qs: Seq<QueueEntry>, current: Option<usize>) -> Seq<char>
    decreases qs.len(),
{
    if qs.len() == 0 { Seq::empty() } else { queue_items_text(qs.drop_last(), current) + queue_text(qs.last(), current) }
}

/// The last fifty characters of a long URI.
pub open spec fn uri_tail(uri: Seq<char>) -> Seq<char> {
    if uri.len() > 50 { uri.skip(uri.len() - 50) } else { uri }
}

pub open spec fn position_text(p: PositionEntry) -> Seq<char> {
    "  "@ + clock(p.position_secs as nat) + " / "@ + clock(p.duration_secs as nat) + " - "@ + uri_tail(p.uri@) + nl()
        + "    Device: "@ + p.device@ + nl() + nl()
}

pub open spec fn positions_text(ps: Seq<PositionEntry>) -> Seq<char>
    decreases ps.len(),
{
    if ps.len() == 0 { Seq::empty() } else { positions_text(ps.drop_last()) + position_text(ps.last()) }
}

pub open spec fn media_text(f: MediaFileInfo) -> Seq<char> {
    "  "@ + f.filename@ + " ("@ + mb_text(f.size) + " MB)"@ + nl() + "    Path: "@ + f.path@ + nl() + "    Type: "@
        + f.mime_type@ + nl() + nl()
}

pub open spec fn media_files_text(fs: Seq<MediaFileInfo>) -> Seq<char>
    decreases fs.len(),
{
    if fs.len() == 0 { Seq::empty() } else { media_files_text(fs.drop_last()) + media_text(fs.last()) }
}

pub open spec fn event_text(e: Notification) -> Seq<char> {
    match e {
        Notification::VolumeChanged { device, volume } => "  ["@ + device@ + "] Volume changed to "@
            + decimal(volume as nat) + "%"@ + nl(),
        Notification::MuteChanged { device, muted } => "  ["@ + device@ + "] Mute: "@ + on_off(muted) + nl(),
        Notification::TransportStateChanged { device, state } => "  ["@ + device@ + "] Transport state: "@
            + state@ + nl(),
        Notification::CurrentUriChanged { device, uri } => "  ["@ + device@ + "] Now playing: "@ + uri@ + nl(),
        Notification::SubscriptionLost { device, service } => "  ["@ + device@ + "] Subscription lost for "@
            + service@ + nl(),
    }
}

pub open spec fn events_text(es: Seq<Notification>) -> Seq<char>
    decreases es.len(),
{
    if es.len() == 0 { Seq::empty() } else { events_text(es.drop_last()) + event_text(es.last()) }
}

/// The text shown for an answer of the daemon (each line ended by a newline).
pub open spec fn response_text(data: Option<ResponseData>) -> Seq<char> {
    match data {
        Some(ResponseData::Renderers { renderers }) => if renderers@.len() == 0 {
            "No renderers found."@ + nl()
        } else {
            "Found "@ + decimal(renderers@.len()) + " renderer(s):"@ + nl() + nl() + renderers_text(renderers@)
        },
        Some(ResponseData::Playback { state, position_secs, duration_secs, current_uri }) => "Playback status:"@
            + nl() + "  State: "@ + state@ + nl() + "  Position: "@ + clock(position_secs as nat) + " / "@
            + clock(duration_secs as nat) + nl()
            + (match current_uri { Some(u) => "  Playing: "@ + u@ + nl(), None => Seq::empty() }),
        Some(ResponseData::Streaming { device, file, url }) => "Streaming started:"@ + nl() + "  Device: "@ + device@
            + nl() + "  File: "@ + file@ + nl() + "  URL: "@ + url@ + nl(),
        Some(ResponseData::DaemonInfo { version, uptime_secs, active_streams }) => "Daemon info:"@ + nl()
            + "  Version: "@ + version@ + nl() + "  Uptime: "@ + decimal(uptime_secs as nat) + "s"@ + nl()
            + "  Active streams: "@ + decimal(active_streams as nat) + nl(),
        Some(ResponseData::Volume { volume, muted }) => "Volume: "@ + decimal(volume as nat) + "%"@ + nl()
            + "Muted: "@ + (if muted { "yes"@ } else { "no"@ }) + nl(),
        Some(ResponseData::Pong) => "Pong!"@ + nl(),
        Some(ResponseData::Queue { items, current_index, shuffle, repeat }) => if items@.len() == 0 {
            "Queue is empty"@ + nl()
        } else {
            "Queue ("@ + decimal(items@.len()) + " items):"@ + nl() + "  Shuffle: "@ + on_off(shuffle)
                + ", Repeat: "@ + repeat@ + nl() + nl() + queue_items_text(items@, current_index)
        },
        Some(ResponseData::Position { uri, position_secs, duration_secs, device }) => "Position saved:"@ + nl()
            + "  URI: "@ + uri@ + nl() + "  Position: "@ + clock(position_secs as nat) + " / "@
            + clock(duration_secs as nat) + nl() + "  Device: "@ + device@ + nl(),
        Some(ResponseData::Positions { positions }) => if positions@.len() == 0 {
            "No saved positions"@ + nl()
        } else {
            "Saved positions ("@ + decimal(positions@.len()) + "):"@ + nl() + nl() + positions_text(positions@)
        },
        Some(ResponseData::MediaFiles { files }) => if files@.len() == 0 {
            "No media files (server not running or no directories configured)"@ + nl()
        } else {
            "Media library ("@ + decimal(files@.len()) + " files):"@ + nl() + nl() + media_files_text(files@)
        },
        Some(ResponseData::Events { events }) => if events@.len() == 0 {
            "No pending events"@ + nl()
        } else {
            "Events ("@ + decimal(events@.len()) + "):"@ + nl() + nl() + events_text(events@)
        },
        Some(ResponseData::FileCount { count }) => "Media files: "@ + decimal(count as nat) + nl(),
        Some(ResponseData::AutoRefresh { enabled }) => "Auto-refresh: "@ + on_off(enabled) + nl(),
        None => "OK"@ + nl(),
    }
}

fn push_on_off(s: &mut String, b: bool)
    ensures
        final(s)@ == old(s)@ + on_off(b),
{
    if b {
        push_str(s, "on");
    } else {
        push_str(s, "off");
    }
}

fn push_clock(s: &mut String, secs: u64)
    ensures
        final(s)@ == old(s)@ + clock(secs as nat),
{
    push_str(s, format_duration(secs).as_str());
}

fn push_renderers(s: &mut String, rs: &Vec<RendererEntry>)
    ensures
        final(s)@ == old(s)@ + renderers_text(rs@),
{
    let mut i: usize = 0;
    assert(rs@.take(0) =~= Seq::<RendererEntry>::empty());
    while i < rs.len()
        invariant
            i <= rs@.len(),
            s@ == old(s)@ + renderers_text(rs@.take(i as int)),
        decreases rs@.len() - i,
    {
        let r = &rs[i];
        let ghost before = s@;
        push_str(s, "  ");
        push_str(s, r.name.as_str());
        push_char(s, '\n');
        push_str(s, "    Location: ");
        push_str(s, r.location.as_str());
        push_char(s, '\n');
        if let Some(m) = &r.manufacturer {
            push_str(s, "    Manufacturer: ");
            push_str(s, m.as_str());
            push_char(s, '\n');
        }
        let ghost mid = s@;
        if let Some(m) = &r.model {
            push_str(s, "    Model: ");
            push_str(s, m.as_str());
            push_char(s, '\n');
        }
        push_char(s, '\n');
        proof {
            let t = rs@.take(i + 1);
            assert(t.drop_last() =~= rs@.take(i as int));
            assert(t.last() == *r);
            assert(s@ =~= before + renderer_text(*r));
        }
        i = i + 1;
    }
    assert(rs@.take(rs@.len() as int) =~= rs@);
}

fn queue_line(q: &QueueEntry, current: Option<usize>) -> (r: String)
    ensures
        r@ == queue_text(*q, current),
{
    let mut s = String::new();
    let is_current = match current {
        Some(c) => c == q.index,
        None => false,
    };
    if is_current {
        push_str(&mut s, ">");
    } else {
        push_str(&mut s, " ");
    }
    push_str(&mut s, " ");
    if q.index < 10 {
        push_char(&mut s, ' ');
    }
    push_decimal(&mut s, q.index as u64);
    let ghost head = s@;
    assert(head =~= (if current == Some(q.index) { ">"@ } else { " "@ }) + " "@ + width2(q.index as nat));
    push_str(&mut s, ". ");
    push_str(&mut s, q.title.as_str());
    push_str(&mut s, " [");
    match q.duration_secs {
        Some(d) => push_clock(&mut s, d),
        None => push_str(&mut s, "--:--"),
    }
    push_str(&mut s, "]");
    push_char(&mut s, '\n');
    assert(s@ =~= queue_text(*q, current));
    s
}

fn push_queue(s: &mut String, qs: &Vec<QueueEntry>, current: Option<usize>)
    ensures
        final(s)@ == old(s)@ + queue_items_text(qs@, current),
{
    let mut i: usize = 0;
    assert(qs@.take(0) =~= Seq::<QueueEntry>::empty());
    while i < qs.len()
        invariant
            i <= qs@.len(),
            s@ == old(s)@ + queue_items_text(qs@.take(i as int), current),
        decreases qs@.len() - i,
    {
        let line = queue_line(&qs[i], current);
        push_str(s, line.as_str());
        proof {
            let t = qs@.take(i + 1);
            assert(t.drop_last() =~= qs@.take(i as int));
            assert(t.last() == qs@[i as int]);
        }
        i = i + 1;
    }
    assert(qs@.take(qs@.len() as int) =~= qs@);
}

fn push_uri_tail(s: &mut String, uri: &str)
    ensures
        final(s)@ == old(s)@ + uri_tail(uri@),
{
    let cs = chars_of(uri);
    if cs.len() > 50 {
        let tail = crate::text::slice_range(cs.as_slice(), cs.len() - 50, cs.len());
        assert(tail@ =~= uri@.skip(uri@.len() - 50));
        crate::text::push_chars(s, tail.as_slice());
    } else {
        push_str(s, uri);
    }
}

fn push_positions(s: &mut String, ps: &Vec<PositionEntry>)
    ensures
        final(s)@ == old(s)@ + positions_text(ps@),
{
    let mut i: usize = 0;
    assert(ps@.take(0) =~= Seq::<PositionEntry>::empty());
    while i < ps.len()
        invariant
            i <= ps@.len(),
            s@ == old(s)@ + positions_text(ps@.take(i as int)),
        decreases ps@.len() - i,
    {
        let p = &ps[i];
        let ghost before = s@;
        push_str(s, "  ");
        push_clock(s, p.position_secs);
        push_str(s, " / ");
        push_clock(s, p.duration_secs);
        push_str(s, " - ");
        push_uri_tail(s, p.uri.as_str());
        push_char(s, '\n');
        push_str(s, "    Device: ");
        push_str(s, p.device.as_str());
        push_char(s, '\n');
        push_char(s, '\n');
        proof {
            let t = ps@.take(i + 1);
            assert(t.drop_last() =~= ps@.take(i as int));
            assert(t.last() == *p);
            assert(s@ =~= before + position_text(*p));
        }
        i = i + 1;
    }
    assert(ps@.take(ps@.len() as int) =~= ps@);
}

fn push_media_files(s: &mut String, fs: &Vec<MediaFileInfo>)
    ensures
        final(s)@ == old(s)@ + media_files_text(fs@),
{
    let mut i: usize = 0;
    assert(fs@.take(0) =~= Seq::<MediaFileInfo>::empty());
    while i < fs.len()
        invariant
            i <= fs@.len(),
            s@ == old(s)@ + media_files_text(fs@.take(i as int)),
        decreases fs@.len() - i,
    {
        let f = &fs[i];
        let ghost before = s@;
        push_str(s, "  ");
        push_str(s, f.filename.as_str());
        push_str(s, " (");
        let mb = size_mb_text(f.size);
        push_str(s, mb.as_str());
        push_str(s, " MB)");
        push_char(s, '\n');
        push_str(s, "    Path: ");
        push_str(s, f.path.as_str());
        push_char(s, '\n');
        push_str(s, "    Type: ");
        push_str(s, f.mime_type.as_str());
        push_char(s, '\n');
        push_char(s, '\n');
        proof {
            let t = fs@.take(i + 1);
            assert(t.drop_last() =~= fs@.take(i as int));
            assert(t.last() == *f);
            assert(s@ =~= before + media_text(*f));
        }
        i = i + 1;
    }
    assert(fs@.take(fs@.len() as int) =~= fs@);
}

fn push_events(s: &mut String, es: &Vec<Notification>)
    ensures
        final(s)@ == old(s)@ + events_text(es@),
{
    let mut i: usize = 0;
    assert(es@.take(0) =~= Seq::<Notification>::empty());
    while i < es.len()
        invariant
            i <= es@.len(),
            s@ == old(s)@ + events_text(es@.take(i as int)),
        decreases es@.len() - i,
    {
        let e = &es[i];
        let ghost before = s@;
        match e {
            Notification::VolumeChanged { device, volume } => {
                push_str(s, "  [");
                push_str(s, device.as_str());
                push_str(s, "] Volume changed to ");
                push_decimal(s, *volume as u64);
                push_str(s, "%");
            },
            Notification::MuteChanged { device, muted } => {
                push_str(s, "  [");
                push_str(s, device.as_str());
                push_str(s, "] Mute: ");
                push_on_off(s, *muted);
            },
            Notification::TransportStateChanged { device, state } => {
                push_str(s, "  [");
                push_str(s, device.as_str());
                push_str(s, "] Transport state: ");
                push_str(s, state.as_str());
            },
            Notification::CurrentUriChanged { device, uri } => {
                push_str(s, "  [");
                push_str(s, device.as_str());
                push_str(s, "] Now playing: ");
                push_str(s, uri.as_str());
            },
            Notification::SubscriptionLost { device, service } => {
                push_str(s, "  [");
                push_str(s, device.as_str());
                push_str(s, "] Subscription lost for ");
                push_str(s, service.as_str());
            },
        }
        push_char(s, '\n');
        proof {
            let t = es@.take(i + 1);
            assert(t.drop_last() =~= es@.take(i as int));
            assert(t.last() == *e);
            assert(s@ =~= before + event_text(*e));
        }
        i = i + 1;
    }
    assert(es@.take(es@.len() as int) =~= es@);
}

/// Print response data in human-readable format: the text to print.
pub fn response_data_text(data: &Option<ResponseData>) -> (r: String)
    ensures
        r@ == response_text(*data),
{
    let mut s = String::new();
    match data {
        Some(ResponseData::Renderers { renderers }) => {
            if renderers.len() == 0 {
                push_str(&mut s, "No renderers found.");
                push_char(&mut s, '\n');
            } else {
                push_str(&mut s, "Found ");
                push_decimal(&mut s, renderers.len() as u64);
                push_str(&mut s, " renderer(s):");
                push_char(&mut s, '\n');
                push_char(&mut s, '\n');
                push_renderers(&mut s, renderers);
            }
        },
        Some(ResponseData::Playback { state, position_secs, duration_secs, current_uri }) => {
            push_str(&mut s, "Playback status:");
            push_char(&mut s, '\n');
            push_str(&mut s, "  State: ");
            push_str(&mut s, state.as_str());
            push_char(&mut s, '\n');
            push_str(&mut s, "  Position: ");
            push_clock(&mut s, *position_secs);
            push_str(&mut s, " / ");
            push_clock(&mut s, *duration_secs);
            push_char(&mut s, '\n');
            if let Some(u) = current_uri {
                push_str(&mut s, "  Playing: ");
                push_str(&mut s, u.as_str());
                push_char(&mut s, '\n');
            }
        },
        Some(ResponseData::Streaming { device, file, url }) => {
            push_str(&mut s, "Streaming started:");
            push_char(&mut s, '\n');
            push_str(&mut s, "  Device: ");
            push_str(&mut s, device.as_str());
            push_char(&mut s, '\n');
            push_str(&mut s, "  File: ");
            push_str(&mut s, file.as_str());
            push_char(&mut s, '\n');
            push_str(&mut s, "  URL: ");
            push_str(&mut s, url.as_str());
            push_char(&mut s, '\n');
        },
        Some(ResponseData::DaemonInfo { version, uptime_secs, active_streams }) => {
            push_str(&mut s, "Daemon info:");
            push_char(&mut s, '\n');
            push_str(&mut s, "  Version: ");
            push_str(&mut s, version.as_str());
            push_char(&mut s, '\n');
            push_str(&mut s, "  Uptime: ");
            push_decimal(&mut s, *uptime_secs);
            push_str(&mut s, "s");
            push_char(&mut s, '\n');
            push_str(&mut s, "  Active streams: ");
            push_decimal(&mut s, *active_streams as u64);
            push_char(&mut s, '\n');
        },
        Some(ResponseData::Volume { volume, muted }) => {
            push_str(&mut s, "Volume: ");
            push_decimal(&mut s, *volume as u64);
            push_str(&mut s, "%");
            push_char(&mut s, '\n');
            push_str(&mut s, "Muted: ");
            if *muted {
                push_str(&mut s, "yes");
            } else {
                push_str(&mut s, "no");
            }
            push_char(&mut s, '\n');
        },
        Some(ResponseData::Pong) => {
            push_str(&mut s, "Pong!");
            push_char(&mut s, '\n');
        },
        Some(ResponseData::Queue { items, current_index, shuffle, repeat }) => {
            if items.len() == 0 {
                push_str(&mut s, "Queue is empty");
                push_char(&mut s, '\n');
            } else {
                push_str(&mut s, "Queue (");
                push_decimal(&mut s, items.len() as u64);
                push_str(&mut s, " items):");
                push_char(&mut s, '\n');
                push_str(&mut s, "  Shuffle: ");
                push_on_off(&mut s, *shuffle);
                push_str(&mut s, ", Repeat: ");
                push_str(&mut s, repeat.as_str());
                push_char(&mut s, '\n');
                push_char(&mut s, '\n');
                push_queue(&mut s, items, *current_index);
            }
        },
        Some(ResponseData::Position { uri, position_secs, duration_secs, device }) => {
            push_str(&mut s, "Position saved:");
            push_char(&mut s, '\n');
            push_str(&mut s, "  URI: ");
            push_str(&mut s, uri.as_str());
            push_char(&mut s, '\n');
            push_str(&mut s, "  Position: ");
            push_clock(&mut s, *position_secs);
            push_str(&mut s, " / ");
            push_clock(&mut s, *duration_secs);
            push_char(&mut s, '\n');
            push_str(&mut s, "  Device: ");
            push_str(&mut s, device.as_str());
            push_char(&mut s, '\n');
        },
        Some(ResponseData::Positions { positions }) => {
            if positions.len() == 0 {
                push_str(&mut s, "No saved positions");
                push_char(&mut s, '\n');
            } else {
                push_str(&mut s, "Saved positions (");
                push_decimal(&mut s, positions.len() as u64);
                push_str(&mut s, "):");
                push_char(&mut s, '\n');
                push_char(&mut s, '\n');
                push_positions(&mut s, positions);
            }
        },
        Some(ResponseData::MediaFiles { files }) => {
            if files.len() == 0 {
                push_str(&mut s, "No media files (server not running or no directories configured)");
                push_char(&mut s, '\n');
            } else {
                push_str(&mut s, "Media library (");
                push_decimal(&mut s, files.len() as u64);
                push_str(&mut s, " files):");
                push_char(&mut s, '\n');
                push_char(&mut s, '\n');
                push_media_files(&mut s, files);
            }
        },
        Some(ResponseData::Events { events }) => {
            if events.len() == 0 {
                push_str(&mut s, "No pending events");
                push_char(&mut s, '\n');
            } else {
                push_str(&mut s, "Events (");
                push_decimal(&mut s, events.len() as u64);
                push_str(&mut s, "):");
                push_char(&mut s, '\n');
                push_char(&mut s, '\n');
                push_events(&mut s, events);
            }
        },
        Some(ResponseData::FileCount { count }) => {
            push_str(&mut s, "Media files: ");
            push_decimal(&mut s, *count as u64);
            push_char(&mut s, '\n');
        },
        Some(ResponseData::AutoRefresh { enabled }) => {
            push_str(&mut s, "Auto-refresh: ");
            push_on_off(&mut s, *enabled);
            push_char(&mut s, '\n');
        },
        None => {
            push_str(&mut s, "OK");
            push_char(&mut s, '\n');
        },
    }
    assert(s@ =~= response_text(*data));
    s
}
} // verus!
