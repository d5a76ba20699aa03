//! The terminal interface's player state and how the results of its
//! background work change it: renderer lists, status polls, renderer events,
//! queue and history updates. Clock readings are milliseconds of a monotonic
//! clock, handed in by the caller.

use vstd::prelude::*;
use crate::daemon::{Notification, QueueEntry, RendererEntry};
use crate::text::{decimal, push_decimal, push_str};
use crate::tui::{clamp_queue_selection, clamped, filtered_of, titles_of, update_search_filter, HistoryDisplayItem, QueueDisplayItem};
use crate::tui_library::reset_selection;
use crate::types::str_eq;

verus! {

/// Status data collected from background refresh
#[derive(Debug)]
pub struct StatusUpdateData {
    /// Device this status update is for (to prevent applying to wrong device)
    pub device: String,
    pub playback_state: Option<String>,
    pub playback_position: Option<u64>,
    pub playback_duration: Option<u64>,
    pub current_uri: Option<String>,
    pub volume: Option<u8>,
    pub muted: Option<bool>,
    pub queue_items: Option<Vec<QueueEntry>>,
    pub queue_current: Option<usize>,
    pub shuffle: Option<bool>,
    pub repeat: Option<String>,
}

/// Background task result
#[derive(Debug)]
pub enum BackgroundResult {
    Renderers(Vec<RendererEntry>),
    DiscoveryError(String),
    /// Operation completed successfully (e.g., play, add to queue)
    OperationSuccess(String),
    /// Operation failed
    OperationError(String),
    /// Status update from periodic refresh (playback + volume + queue)
    StatusUpdate(StatusUpdateData),
    /// Daemon info update
    DaemonInfoUpdate { uptime_secs: u64, active_streams: usize },
    /// UPnP events received from subscribed device
    EventsReceived(Vec<Notification>),
    /// Subscription result (success or failure)
    SubscriptionResult { device: String, success: bool },
    /// Queue operation completed with updated queue data (fast path)
    QueueUpdated { message: String, items: Vec<QueueEntry>, current_index: Option<usize>, shuffle: bool, repeat: String },
    /// History list refreshed
    HistoryRefreshed(Vec<HistoryDisplayItem>),
    /// Auto-refresh state changed
    AutoRefreshChanged(bool),
}

/// What the player panels show and what the interface remembers between
/// polls.
pub struct PlayerState {
    pub renderers: Vec<RendererEntry>,
    pub discovering: bool,
    pub selected_renderer: Option<usize>,
    pub playback_state: String,
    pub playback_position: u64,
    pub playback_duration: u64,
    pub current_uri: Option<String>,
    /// Clock reading when the position was last reported.
    pub position_last_update: Option<u64>,
    pub volume: u8,
    pub muted: bool,
    pub queue_items: Vec<QueueDisplayItem>,
    pub queue_current: Option<usize>,
    pub shuffle: bool,
    pub repeat: String,
    pub selected_queue: Option<usize>,
    pub search_query: String,
    pub filtered_queue_indices: Vec<usize>,
    pub history_items: Vec<HistoryDisplayItem>,
    pub selected_history: Option<usize>,
    pub status_message: String,
    pub daemon_uptime: u64,
    pub daemon_streams: usize,
    pub subscribed_device: Option<String>,
    pub pending_operation: Option<String>,
    /// Clock reading when the position was last saved to the history.
    pub last_position_save: Option<u64>,
    pub auto_refresh: bool,
}

/// A queue item as shown: index, title, source, whether it is a URL, and
/// its duration in seconds.
pub type QueueView = (usize, Seq<char>, Seq<char>, bool, Option<u64>);

pub open spec fn os(o: Option<String>) -> Option<Seq<char>> {
    match o {
        Some(s) => Some(s@),
        None => None,
    }
}

/// The player state as plain values.
pub struct PlayerView {
    pub renderers: Seq<RendererEntry>,
    pub discovering: bool,
    pub selected_renderer: Option<usize>,
    pub playback_state: Seq<char>,
    pub playback_position: u64,
    pub playback_duration: u64,
    pub current_uri: Option<Seq<char>>,
    pub position_last_update: Option<u64>,
    pub volume: u8,
    pub muted: bool,
    pub queue_items: Seq<QueueView>,
    pub queue_current: Option<usize>,
    pub shuffle: bool,
    pub repeat: Seq<char>,
    pub selected_queue: Option<usize>,
    pub search_query: Seq<char>,
    pub filtered_queue_indices: Seq<usize>,
    pub history_items: Seq<HistoryDisplayItem>,
    pub selected_history: Option<usize>,
    pub status_message: Seq<char>,
    pub daemon_uptime: u64,
    pub daemon_streams: usize,
    pub subscribed_device: Option<Seq<char>>,
    pub pending_operation: Option<Seq<char>>,
    pub last_position_save: Option<u64>,
    pub auto_refresh: bool,
}

pub open spec fn queue_view(q: QueueDisplayItem) -> QueueView {
    (q.index, q.title@, q.source@, q.is_url, q.duration)
}

impl View for PlayerState {
    type V = PlayerView;

    open spec fn view(&self) -> PlayerView {
        PlayerView {
            renderers: self.renderers@,
            discovering: self.discovering,
            selected_renderer: self.selected_renderer,
            playback_state: self.playback_state@,
            playback_position: self.playback_position,
            playback_duration: self.playback_duration,
            current_uri: os(self.current_uri),
            position_last_update: self.position_last_update,
            volume: self.volume,
            muted: self.muted,
            queue_items: self.queue_items@.map_values(|q: QueueDisplayItem| queue_view(q)),
            queue_current: self.queue_current,
            shuffle: self.shuffle,
            repeat: self.repeat@,
            selected_queue: self.selected_queue,
            search_query: self.search_query@,
            filtered_queue_indices: self.filtered_queue_indices@,
            history_items: self.history_items@,
            selected_history: self.selected_history,
            status_message: self.status_message@,
            daemon_uptime: self.daemon_uptime,
            daemon_streams: self.daemon_streams,
            subscribed_device: os(self.subscribed_device),
            pending_operation: os(self.pending_operation),
            last_position_save: self.last_position_save,
            auto_refresh: self.auto_refresh,
        }
    }
}

/// The name of the selected renderer.
pub open spec fn selected_device_of(v: PlayerView) -> Option<Seq<char>> {
    match v.selected_renderer {
        Some(i) => if i < v.renderers.len() { Some(v.renderers[i as int].name@) } else { None },
        None => None,
    }
}

/// A state in which the renderer shows no position.
pub open spec fn is_idle_state(s: Seq<char>) -> bool {
    s == "Stopped"@ || s == "NoMediaPresent"@
}

/// How the daemon's queue items are shown.
pub open spec fn queue_views_of(items: Seq<QueueEntry>) -> Seq<QueueView> {
    items.map_values(|e: QueueEntry| (e.index, e.title@, e.source@, e.is_url, e.duration_secs))
}

/// The indices shown for the search over the queue `items`.
pub open spec fn filter_of(items: Seq<QueueView>, query: Seq<char>) -> Seq<usize> {
    filtered_of(items.map_values(|q: QueueView| q.1), query)
}

/// A reported renderer state replaces the shown one; an idle state resets
/// the position.
pub open spec fn state_reported(v: PlayerView, state: Option<String>) -> PlayerView {
    match state {
        Some(st) => if is_idle_state(st@) {
            PlayerView { playback_state: st@, playback_position: 0, playback_duration: 0, position_last_update: None, ..v }
        } else {
            PlayerView { playback_state: st@, ..v }
        },
        None => v,
    }
}

/// A reported position (stamped with the clock) and duration count only
/// outside an idle state.
pub open spec fn position_reported(v: PlayerView, pos: Option<u64>, dur: Option<u64>, now: u64) -> PlayerView {
    if !is_idle_state(v.playback_state) {
        PlayerView {
            playback_position: match pos { Some(p) => p, None => v.playback_position },
            position_last_update: if pos is Some { Some(now) } else { v.position_last_update },
            playback_duration: match dur { Some(x) => x, None => v.playback_duration },
            ..v
        }
    } else {
        v
    }
}

/// Reported URI, volume and mute replace the shown ones.
pub open spec fn sound_reported(v: PlayerView, uri: Option<String>, volume: Option<u8>, muted: Option<bool>) -> PlayerView {
    PlayerView {
        current_uri: if uri is Some { os(uri) } else { v.current_uri },
        volume: match volume { Some(x) => x, None => v.volume },
        muted: match muted { Some(x) => x, None => v.muted },
        ..v
    }
}

/// A reported queue replaces the shown one, filtered by the search.
pub open spec fn queue_reported(v: PlayerView, items: Option<Vec<QueueEntry>>) -> PlayerView {
    match items {
        Some(items) => PlayerView {
            queue_items: queue_views_of(items@),
            filtered_queue_indices: filter_of(queue_views_of(items@), v.search_query),
            ..v
        },
        None => v,
    }
}

/// Reported queue position, shuffle and repeat replace the shown ones.
pub open spec fn modes_reported(v: PlayerView, current: Option<usize>, shuffle: Option<bool>, repeat: Option<String>) -> PlayerView {
    PlayerView {
        queue_current: if current is Some { current } else { v.queue_current },
        shuffle: match shuffle { Some(x) => x, None => v.shuffle },
        repeat: match repeat { Some(x) => x@, None => v.repeat },
        ..v
    }
}

/// A status poll's data applied: only where it is for the selected device;
/// an idle state resets the position; a position or duration counts only
/// outside an idle state; every other field that came replaces the shown one.
pub open spec fn status_applied(v: PlayerView, d: StatusUpdateData, now: u64) -> PlayerView {
    if selected_device_of(v) != Some(d.device@) {
        v
    } else {
        let v1 = state_reported(v, d.playback_state);
        let v2 = position_reported(v1, d.playback_position, d.playback_duration, now);
        let v3 = sound_reported(v2, d.current_uri, d.volume, d.muted);
        let v4 = queue_reported(v3, d.queue_items);
        modes_reported(v4, d.queue_current, d.shuffle, d.repeat)
    }
}

/// One renderer event applied; `selected` is the selected renderer's name.
pub open spec fn event_applied(v: PlayerView, e: Notification, selected: Option<Seq<char>>) -> PlayerView {
    match e {
        Notification::VolumeChanged { device, volume } =>
            if selected == Some(device@) { PlayerView { volume, ..v } } else { v },
        Notification::MuteChanged { device, muted } =>
            if selected == Some(device@) { PlayerView { muted, ..v } } else { v },
        Notification::TransportStateChanged { device, state } =>
            if selected == Some(device@) {
                let v1 = PlayerView { playback_state: state@, pending_operation: None, ..v };
                if is_idle_state(state@) {
                    PlayerView { playback_position: 0, playback_duration: 0, position_last_update: None, ..v1 }
                } else if state@ != "Playing"@ {
                    PlayerView { position_last_update: None, ..v1 }
                } else {
                    v1
                }
            } else {
                v
            },
        Notification::CurrentUriChanged { device, uri } =>
            if selected == Some(device@) { PlayerView { current_uri: Some(uri@), ..v } } else { v },
        Notification::SubscriptionLost { device, service } =>
            if v.subscribed_device == Some(device@) {
                PlayerView {
                    subscribed_device: None,
                    status_message: "Subscription lost ("@ + service@ + ") - will retry"@,
                    ..v
                }
            } else {
                v
            },
    }
}

/// Renderer events applied in order.
pub open spec fn events_applied(v: PlayerView, es: Seq<Notification>, selected: Option<Seq<char>>) -> PlayerView
    decreases es.len(),
{
    if es.len() == 0 {
        v
    } else {
        event_applied(events_applied(v, es.drop_last(), selected), es.last(), selected)
    }
}

/// A background result applied to the shown state; `now` is the clock.
pub open spec fn result_applied(v: PlayerView, r: BackgroundResult, now: u64) -> PlayerView {
    match r {
        BackgroundResult::Renderers(rs) => PlayerView {
            discovering: false,
            renderers: rs@,
            status_message: if rs@.len() == 0 {
                "No renderers found"@
            } else {
                decimal(rs@.len()) + " renderer(s)"@
            },
            ..v
        },
        BackgroundResult::DiscoveryError(msg) => PlayerView {
            discovering: false,
            status_message: "Discovery error: "@ + msg@,
            ..v
        },
        BackgroundResult::OperationSuccess(msg) => PlayerView { status_message: msg@, pending_operation: None, ..v },
        BackgroundResult::OperationError(msg) => PlayerView {
            status_message: "Error: "@ + msg@,
            pending_operation: None,
            ..v
        },
        BackgroundResult::StatusUpdate(data) => status_applied(v, data, now),
        BackgroundResult::DaemonInfoUpdate { uptime_secs, active_streams } => PlayerView {
            daemon_uptime: uptime_secs,
            daemon_streams: active_streams,
            ..v
        },
        BackgroundResult::EventsReceived(es) => events_applied(v, es@, selected_device_of(v)),
        BackgroundResult::SubscriptionResult { device, success } => if success {
            PlayerView { subscribed_device: Some(device@), ..v }
        } else {
            PlayerView { status_message: "Failed to subscribe to "@ + device@, ..v }
        },
        BackgroundResult::QueueUpdated { message, items, current_index, shuffle, repeat } => {
            let f = filter_of(queue_views_of(items@), v.search_query);
            PlayerView {
                status_message: if message@.len() == 0 { v.status_message } else { message@ },
                pending_operation: None,
                queue_items: queue_views_of(items@),
                filtered_queue_indices: f,
                queue_current: current_index,
                shuffle,
                repeat: repeat@,
                selected_queue: clamped(v.selected_queue, f.len() as usize),
                ..v
            }
        },
        BackgroundResult::HistoryRefreshed(items) => PlayerView {
            history_items: items@,
            selected_history: reset_selection(v.selected_history, items@.len()),
            ..v
        },
        BackgroundResult::AutoRefreshChanged(enabled) => PlayerView {
            auto_refresh: enabled,
            status_message: "Auto-refresh: "@ + if enabled { "ON"@ } else { "OFF"@ },
            ..v
        },
    }
}

/// The position shown: while playing, the last reported position plus the
/// whole seconds since it was reported, at most the duration.
pub open spec fn interpolated_position_of(v: PlayerView, now: u64) -> u64 {
    match v.position_last_update {
        Some(t) if v.playback_state == "Playing"@ => {
            let elapsed: int = (if now >= t { now - t } else { 0int }) / 1000;
            if v.playback_position + elapsed <= v.playback_duration {
                (v.playback_position + elapsed) as u64
            } else {
                v.playback_duration
            }
        },
        _ => v.playback_position,
    }
}

/// Clear the action feedback once it is older than a second (clock in
/// milliseconds).
pub fn clear_expired_action(last_action: &mut Option<String>, last_action_time: &mut Option<u64>, now: u64)
    ensures
        match *old(last_action_time) {
            Some(t) => if now > t && now - t > 1000 {
                *final(last_action) is None && *final(last_action_time) is None
            } else {
                *final(last_action) == *old(last_action) && *final(last_action_time) == *old(last_action_time)
            },
            None => *final(last_action) == *old(last_action) && *final(last_action_time) is None,
        },
{
    if let Some(t) = *last_action_time {
        if now > t && now - t > 1000 {
            *last_action = None;
            *last_action_time = None;
        }
    }
}

/// The shown queue items of the daemon's queue.
fn display_items(items: Vec<QueueEntry>) -> (r: Vec<QueueDisplayItem>)
    ensures
        r@.map_values(|q: QueueDisplayItem| queue_view(q)) == queue_views_of(items@),
{
    let ghost iv = queue_views_of(items@);
    let ghost n = items@.len();
    let mut items = items;
    let mut out: Vec<QueueDisplayItem> = Vec::new();
    while items.len() > 0
        invariant
            items@.len() <= n,
            iv.len() == n,
            forall|k: int| 0 <= k < items@.len() ==> (#[trigger] queue_views_of(items@)[k]) == iv[n - items@.len() + k],
            out@.len() == n - items@.len(),
            forall|k: int| 0 <= k < out@.len() ==> queue_view(#[trigger] out@[k]) == iv[k],
        decreases items@.len(),
    {
        let ghost before = items@;
        let ghost done = n - before.len();
        let e = items.remove(0);
        assert(queue_views_of(before)[0] == iv[done]);
        assert forall|k: int| 0 <= k < items@.len() implies (#[trigger] queue_views_of(items@)[k]) == iv[n - items@.len() + k] by {
            assert(items@[k] == before[k + 1]);
            assert(queue_views_of(before)[k + 1] == iv[done + k + 1]);
        }
        out.push(QueueDisplayItem { index: e.index, title: e.title, source: e.source, is_url: e.is_url, duration: e.duration_secs });
    }
    assert(out@.map_values(|q: QueueDisplayItem| queue_view(q)) =~= iv);
    out
}

/// The titles the search reads are those of the shown items.
proof fn lemma_titles(items: Seq<QueueDisplayItem>)
    ensures
        titles_of(items) == items.map_values(|q: QueueDisplayItem| queue_view(q)).map_values(|q: QueueView| q.1),
{
    assert(titles_of(items) =~= items.map_values(|q: QueueDisplayItem| queue_view(q)).map_values(|q: QueueView| q.1));
}

/// Whether the renderer state is one that shows no position.
fn is_idle(s: &str) -> (r: bool)
    ensures
        r == is_idle_state(s@),
{
    str_eq(s, "Stopped") || str_eq(s, "NoMediaPresent")
}

impl PlayerState {
    /// The state before anything was heard from the daemon.
    pub fn new() -> (r: PlayerState)
        ensures
            r@.renderers.len() == 0,
            !r@.discovering,
            r@.selected_renderer == Some(0usize),
            r@.playback_state == "Unknown"@,
            r@.playback_position == 0,
            r@.playback_duration == 0,
            r@.current_uri is None,
            r@.position_last_update is None,
            r@.volume == 0,
            !r@.muted,
            r@.queue_items.len() == 0,
            r@.queue_current is None,
            !r@.shuffle,
            r@.repeat == "none"@,
            r@.selected_queue == Some(0usize),
            r@.search_query.len() == 0,
            r@.filtered_queue_indices.len() == 0,
            r@.history_items.len() == 0,
            r@.selected_history == Some(0usize),
            r@.status_message == "Press '?' for help"@,
            r@.daemon_uptime == 0,
            r@.daemon_streams == 0,
            r@.subscribed_device is None,
            r@.pending_operation is None,
            r@.last_position_save is None,
            r@.auto_refresh,
    {
        let r = PlayerState {
            renderers: Vec::new(),
            discovering: false,
            selected_renderer: Some(0),
            playback_state: String::from_str("Unknown"),
            playback_position: 0,
            playback_duration: 0,
            current_uri: None,
            position_last_update: None,
            volume: 0,
            muted: false,
            queue_items: Vec::new(),
            queue_current: None,
            shuffle: false,
            repeat: String::from_str("none"),
            selected_queue: Some(0),
            search_query: String::new(),
            filtered_queue_indices: Vec::new(),
            history_items: Vec::new(),
            selected_history: Some(0),
            status_message: String::from_str("Press '?' for help"),
            daemon_uptime: 0,
            daemon_streams: 0,
            subscribed_device: None,
            pending_operation: None,
            last_position_save: None,
            auto_refresh: true,
        };
        assert(r@.queue_items =~= Seq::<QueueView>::empty());
        r
    }

    fn report_state(&mut self, state: Option<String>)
        ensures
            final(self)@ == state_reported(old(self)@, state),
    {
        if let Some(st) = state {
            if is_idle(st.as_str()) {
                self.playback_position = 0;
                self.playback_duration = 0;
                self.position_last_update = None;
            }
            self.playback_state = st;
        }
    }

    fn report_position(&mut self, pos: Option<u64>, dur: Option<u64>, now: u64)
        ensures
            final(self)@ == position_reported(old(self)@, pos, dur, now),
    {
        if !is_idle(self.playback_state.as_str()) {
            if let Some(p) = pos {
                self.playback_position = p;
                self.position_last_update = Some(now);
            }
            if let Some(d) = dur {
                self.playback_duration = d;
            }
        }
    }

    fn report_sound(&mut self, uri: Option<String>, volume: Option<u8>, muted: Option<bool>)
        ensures
            final(self)@ == sound_reported(old(self)@, uri, volume, muted),
    {
        if uri.is_some() {
            self.current_uri = uri;
        }
        if let Some(v) = volume {
            self.volume = v;
        }
        if let Some(m) = muted {
            self.muted = m;
        }
    }

    /// The queue shown is `items`, filtered by the search.
    pub(crate) fn show_queue_items(&mut self, items: Vec<QueueEntry>)
        ensures
            final(self)@ == queue_reported(old(self)@, Some(items)),
    {
        self.queue_items = display_items(items);
        self.filtered_queue_indices = update_search_filter(&self.queue_items, self.search_query.as_str());
        proof {
            lemma_titles(self.queue_items@);
        }
    }

    fn report_queue(&mut self, items: Option<Vec<QueueEntry>>)
        ensures
            final(self)@ == queue_reported(old(self)@, items),
    {
        if let Some(items) = items {
            self.show_queue_items(items);
        }
    }

    fn report_modes(&mut self, current: Option<usize>, shuffle: Option<bool>, repeat: Option<String>)
        ensures
            final(self)@ == modes_reported(old(self)@, current, shuffle, repeat),
    {
        if current.is_some() {
            self.queue_current = current;
        }
        if let Some(sh) = shuffle {
            self.shuffle = sh;
        }
        if let Some(rp) = repeat {
            self.repeat = rp;
        }
    }

    /// Only apply update if it's for the currently selected device
    pub fn apply_status_update(&mut self, data: StatusUpdateData, now: u64)
        ensures
            final(self)@ == status_applied(old(self)@, data, now),
    {
        let is_selected = match self.selected_device() {
            Some(n) => str_eq(n, data.device.as_str()),
            None => false,
        };
        if !is_selected {
            return;
        }
        let StatusUpdateData {
            device,
            playback_state,
            playback_position,
            playback_duration,
            current_uri,
            volume,
            muted,
            queue_items,
            queue_current,
            shuffle,
            repeat,
        } = data;
        self.report_state(playback_state);
        self.report_position(playback_position, playback_duration, now);
        self.report_sound(current_uri, volume, muted);
        self.report_queue(queue_items);
        self.report_modes(queue_current, shuffle, repeat);
    }

    fn apply_event(&mut self, e: Notification, selected: &Option<String>)
        ensures
            final(self)@ == event_applied(old(self)@, e, os(*selected)),
    {
        let for_selected = |device: &String| -> (r: bool)
            ensures
                r == (os(*selected) == Some(device@)),
            {
                match selected {
                    Some(s) => str_eq(s.as_str(), device.as_str()),
                    None => false,
                }
            };
        match e {
            Notification::VolumeChanged { device, volume } => {
                if for_selected(&device) {
                    self.volume = volume;
                }
            },
            Notification::MuteChanged { device, muted } => {
                if for_selected(&device) {
                    self.muted = muted;
                }
            },
            Notification::TransportStateChanged { device, state } => {
                if for_selected(&device) {
                    let idle = is_idle(state.as_str());
                    let playing = str_eq(state.as_str(), "Playing");
                    self.playback_state = state;
                    self.pending_operation = None;
                    if idle {
                        self.playback_position = 0;
                        self.playback_duration = 0;
                        self.position_last_update = None;
                    } else if !playing {
                        self.position_last_update = None;
                    }
                }
            },
            Notification::CurrentUriChanged { device, uri } => {
                if for_selected(&device) {
                    self.current_uri = Some(uri);
                }
            },
            Notification::SubscriptionLost { device, service } => {
                let lost = match &self.subscribed_device {
                    Some(d) => str_eq(d.as_str(), device.as_str()),
                    None => false,
                };
                if lost {
                    self.subscribed_device = None;
                    let mut m = String::from_str("Subscription lost (");
                    push_str(&mut m, service.as_str());
                    push_str(&mut m, ") - will retry");
                    self.status_message = m;
                }
            },
        }
    }

    /// Apply renderer events, in order, to the shown state of the selected
    /// renderer.
    pub fn apply_events(&mut self, events: Vec<Notification>)
        ensures
            final(self)@ == events_applied(old(self)@, events@, selected_device_of(old(self)@)),
    {
        let selected: Option<String> = match self.selected_device() {
            Some(n) => Some(n.to_owned()),
            None => None,
        };
        let ghost sel = selected_device_of(self@);
        let ghost v0 = self@;
        let ghost all = events@;
        let ghost n = events@.len();
        let mut events = events;
        assert(all.take(0) =~= Seq::<Notification>::empty());
        while events.len() > 0
            invariant
                os(selected) == sel,
                all.len() == n,
                events@.len() <= n,
                events@ == all.skip(n - events@.len()),
                self@ == events_applied(v0, all.take(n - events@.len()), sel),
            decreases events@.len(),
        {
            let ghost done = n - events@.len();
            let e = events.remove(0);
            assert(e == all[done]);
            assert(events@ =~= all.skip(done + 1));
            assert(all.take(done + 1).drop_last() =~= all.take(done));
            self.apply_event(e, &selected);
        }
        assert(all.take(n as int) =~= all);
    }

    /// Handle background task result; `now` is the clock.
    pub fn handle_background_result(&mut self, result: BackgroundResult, now: u64)
        ensures
            final(self)@ == result_applied(old(self)@, result, now),
    {
        match result {
            BackgroundResult::Renderers(renderers) => {
                self.discovering = false;
                self.renderers = renderers;
                if self.renderers.len() == 0 {
                    self.status_message = String::from_str("No renderers found");
                } else {
                    let mut m = String::new();
                    push_decimal(&mut m, self.renderers.len() as u64);
                    push_str(&mut m, " renderer(s)");
                    self.status_message = m;
                }
            },
            BackgroundResult::DiscoveryError(msg) => {
                self.discovering = false;
                let mut m = String::from_str("Discovery error: ");
                push_str(&mut m, msg.as_str());
                self.status_message = m;
            },
            BackgroundResult::OperationSuccess(msg) => {
                self.status_message = msg;
                self.pending_operation = None;
            },
            BackgroundResult::OperationError(msg) => {
                let mut m = String::from_str("Error: ");
                push_str(&mut m, msg.as_str());
                self.status_message = m;
                self.pending_operation = None;
            },
            BackgroundResult::StatusUpdate(data) => {
                self.apply_status_update(data, now);
            },
            BackgroundResult::DaemonInfoUpdate { uptime_secs, active_streams } => {
                self.daemon_uptime = uptime_secs;
                self.daemon_streams = active_streams;
            },
            BackgroundResult::EventsReceived(events) => {
                self.apply_events(events);
            },
            BackgroundResult::SubscriptionResult { device, success } => {
                if success {
                    self.subscribed_device = Some(device);
                } else {
                    let mut m = String::from_str("Failed to subscribe to ");
                    push_str(&mut m, device.as_str());
                    self.status_message = m;
                }
            },
            BackgroundResult::QueueUpdated { message, items, current_index, shuffle, repeat } => {
                if crate::text::chars_of(message.as_str()).len() > 0 {
                    self.status_message = message;
                }
                self.pending_operation = None;
                self.show_queue_items(items);
                self.queue_current = current_index;
                self.shuffle = shuffle;
                self.repeat = repeat;
                self.selected_queue = clamp_queue_selection(self.selected_queue, self.filtered_queue_indices.len());
            },
            BackgroundResult::HistoryRefreshed(items) => {
                self.history_items = items;
                let len = self.history_items.len();
                match self.selected_history {
                    Some(i) => {
                        if i >= len {
                            self.selected_history = if len == 0 { None } else { Some(0) };
                        }
                    },
                    None => {
                        if len > 0 {
                            self.selected_history = Some(0);
                        }
                    },
                }
            },
            BackgroundResult::AutoRefreshChanged(enabled) => {
                self.auto_refresh = enabled;
                let mut m = String::from_str("Auto-refresh: ");
                push_str(&mut m, if enabled { "ON" } else { "OFF" });
                self.status_message = m;
            },
        }
    }

    /// Get interpolated playback position (smooth updates between daemon
    /// polls): whole seconds since the last report are added while playing.
    pub fn interpolated_position(&self, now: u64) -> (r: u64)
        ensures
            r == interpolated_position_of(self@, now),
    {
        let elapsed: Option<u64> = match self.position_last_update {
            Some(t) => Some(now.saturating_sub(t) / 1000),
            None => None,
        };
        crate::tui::interpolated_position(self.playback_state.as_str(), self.playback_position, self.playback_duration, elapsed)
    }

    /// Check if we should auto-save position (30 seconds since last save,
    /// while playing)
    pub fn should_auto_save_position(&self, now: u64) -> (r: bool)
        ensures
            r == (self@.playback_state == "Playing"@ && self@.current_uri is Some && self@.playback_position >= 5
                && match self@.last_position_save {
                    None => true,
                    Some(last) => now >= last && now - last >= 30000,
                }),
    {
        if !str_eq(self.playback_state.as_str(), "Playing") {
            return false;
        }
        if self.current_uri.is_none() {
            return false;
        }
        if self.playback_position < 5 {
            return false;
        }
        match self.last_position_save {
            None => true,
            Some(last) => now >= last && now - last >= 30000,
        }
    }

    /// Get the selected queue item (handles filtered indices)
    pub fn selected_queue_item(&self) -> (r: Option<&QueueDisplayItem>)
        ensures
            match r {
                Some(q) => self.selected_actual_index() matches Some(k) && k < self.queue_items@.len()
                    && *q == self.queue_items@[k as int],
                None => !(self.selected_actual_index() matches Some(k) && k < self.queue_items@.len()),
            },
    {
        match self.selected_actual_queue_index() {
            Some(k) => if k < self.queue_items.len() { Some(&self.queue_items[k]) } else { None },
            None => None,
        }
    }

    /// The queue index the selection points at, through the search filter.
    pub open spec fn selected_actual_index(&self) -> Option<usize> {
        match self.selected_queue {
            Some(i) => if i < self.filtered_queue_indices@.len() { Some(self.filtered_queue_indices@[i as int]) } else { None },
            None => None,
        }
    }

    /// Get the actual queue index for the current selection
    pub fn selected_actual_queue_index(&self) -> (r: Option<usize>)
        ensures
            r == self.selected_actual_index(),
    {
        match self.selected_queue {
            Some(i) => if i < self.filtered_queue_indices.len() { Some(self.filtered_queue_indices[i]) } else { None },
            None => None,
        }
    }

    /// Get the currently selected history item
    pub fn selected_history_item(&self) -> (r: Option<&HistoryDisplayItem>)
        ensures
            match r {
                Some(h) => self.selected_history matches Some(i) && i < self.history_items@.len()
                    && *h == self.history_items@[i as int],
                None => !(self.selected_history matches Some(i) && i < self.history_items@.len()),
            },
    {
        match self.selected_history {
            Some(i) => if i < self.history_items.len() { Some(&self.history_items[i]) } else { None },
            None => None,
        }
    }

    /// Get the currently selected device name
    pub fn selected_device(&self) -> (r: Option<&str>)
        ensures
            match r {
                Some(n) => selected_device_of(self@) == Some(n@),
                None => selected_device_of(self@) is None,
            },
    {
        match self.selected_renderer {
            Some(i) => if i < self.renderers.len() { Some(self.renderers[i].name.as_str()) } else { None },
            None => None,
        }
    }
}

/// A status poll for a device other than the selected renderer changes
/// nothing that is shown.
pub proof fn other_device_status_is_ignored(v: PlayerView, d: StatusUpdateData, now: u64)
    requires
        selected_device_of(v) != Some(d.device@),
    ensures
        status_applied(v, d, now) == v,
{
}

/// An event of a renderer other than the selected one leaves volume, mute,
/// playback state, position and URI as they were.
pub proof fn other_device_event_is_ignored(v: PlayerView, e: Notification, selected: Option<Seq<char>>)
    requires
        match e {
            Notification::VolumeChanged { device, .. } => selected != Some(device@),
            Notification::MuteChanged { device, .. } => selected != Some(device@),
            Notification::TransportStateChanged { device, .. } => selected != Some(device@),
            Notification::CurrentUriChanged { device, .. } => selected != Some(device@),
            Notification::SubscriptionLost { .. } => true,
        },
    ensures
        event_applied(v, e, selected).volume == v.volume,
        event_applied(v, e, selected).muted == v.muted,
        event_applied(v, e, selected).playback_state == v.playback_state,
        event_applied(v, e, selected).playback_position == v.playback_position,
        event_applied(v, e, selected).current_uri == v.current_uri,
{
}

/// When the selected renderer reports that it stopped (or holds no media),
/// the shown position and duration are zero, whatever else came with it.
pub proof fn idle_report_resets_position(v: PlayerView, d: StatusUpdateData, now: u64)
    requires
        selected_device_of(v) == Some(d.device@),
        d.playback_state matches Some(st) && is_idle_state(st@),
    ensures
        status_applied(v, d, now).playback_position == 0,
        status_applied(v, d, now).playback_duration == 0,
        status_applied(v, d, now).position_last_update is None,
{
}

/// The queue indices a search shows point into the queue.
pub open spec fn filter_points_into_queue(v: PlayerView) -> bool {
    forall|i: int| 0 <= i < v.filtered_queue_indices.len() ==> (#[trigger] v.filtered_queue_indices[i]) < v.queue_items.len()
}

proof fn lemma_filtered_of_bound(titles: Seq<Seq<char>>, query: Seq<char>)
    ensures
        forall|i: int| 0 <= i < filtered_of(titles, query).len() ==> (#[trigger] filtered_of(titles, query)[i]) < titles.len(),
    decreases titles.len(),
{
    if titles.len() > 0 {
        lemma_filtered_of_bound(titles.drop_last(), query);
        let prev = filtered_of(titles.drop_last(), query);
        let cur = filtered_of(titles, query);
        assert forall|i: int| 0 <= i < cur.len() implies (#[trigger] cur[i]) < titles.len() by {
            if i < prev.len() {
                assert(cur[i] == prev[i]);
            }
        }
    }
}

proof fn lemma_filter_bound(items: Seq<QueueView>, query: Seq<char>)
    ensures
        forall|i: int| 0 <= i < filter_of(items, query).len() ==> (#[trigger] filter_of(items, query)[i]) < items.len(),
{
    lemma_filtered_of_bound(items.map_values(|q: QueueView| q.1), query);
}

proof fn lemma_events_keep_queue(v: PlayerView, es: Seq<Notification>, selected: Option<Seq<char>>)
    ensures
        events_applied(v, es, selected).queue_items == v.queue_items,
        events_applied(v, es, selected).filtered_queue_indices == v.filtered_queue_indices,
    decreases es.len(),
{
    if es.len() > 0 {
        lemma_events_keep_queue(v, es.drop_last(), selected);
    }
}

/// Whatever the background work reports, the queue indices a search shows
/// keep pointing into the queue, and a queue update leaves the selection on
/// a shown item or on none.
pub proof fn results_keep_queue_filter_valid(v: PlayerView, r: BackgroundResult, now: u64)
    requires
        filter_points_into_queue(v),
    ensures
        filter_points_into_queue(result_applied(v, r, now)),
        r is QueueUpdated ==> (result_applied(v, r, now).selected_queue matches Some(i)
            ==> i < result_applied(v, r, now).filtered_queue_indices.len()),
{
    match r {
        BackgroundResult::StatusUpdate(d) => {
            match d.queue_items {
                Some(items) => lemma_filter_bound(queue_views_of(items@), v.search_query),
                None => {},
            }
        },
        BackgroundResult::EventsReceived(es) => {
            lemma_events_keep_queue(v, es@, selected_device_of(v));
        },
        BackgroundResult::QueueUpdated { items, .. } => {
            lemma_filter_bound(queue_views_of(items@), v.search_query);
        },
        _ => {},
    }
}

} // verus!
