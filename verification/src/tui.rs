//! The terminal interface's items and the rules of its lists: moving the
//! selection, filtering the queue by a search, keeping the selection in range,
//! and the shown playback position.

use vstd::prelude::*;
use crate::text::{chars_of, contains_chars, contains_seq};
use crate::types::{lowercase, str_eq, str_to_lowercase};
use crate::urls::{parse_url, parsed_url};
use crate::text::{push_char, push_str, string_from_chars};

verus! {

/// Queue item for display in the TUI
#[derive(Debug)]
pub struct QueueDisplayItem {
    pub index: usize,
    pub title: String,
    pub source: String,
    pub is_url: bool,
    /// Duration in seconds
    pub duration: Option<u64>,
}

/// Focus area in the TUI
#[derive(Debug, Clone, Copy, PartialEq, Eq, Structural)]
pub enum Focus {
    Renderers,
    Library,
    History,
    Queue,
}

/// History item for display in the TUI
#[derive(Debug)]
pub struct HistoryDisplayItem {
    pub uri: String,
    pub title: String,
    pub position_secs: u64,
    pub duration_secs: u64,
    pub device: String,
    pub saved_at: u64,
}

/// User action triggered by keyboard input
#[derive(Debug)]
pub enum Action {
    SeekBackward(u64),
    SeekForward(u64),
    PlayPause,
    PlayQueueItem,
    Stop,
    NextTrack,
    PrevTrack,
    VolumeUp,
    VolumeDown,
    ToggleMute,
    ToggleShuffle,
    CycleRepeat,
    RefreshRenderers,
    RefreshStatus,
    AddToQueue,
    RemoveFromQueue,
    AddUrlToQueue(String),
    DeviceChanged,
    /// Enter selected folder in library
    EnterFolder,
    /// Go back to parent folder in library
    GoParentFolder,
    /// Resume playback from history item
    ResumeFromHistory(String),
    /// Refresh history list
    RefreshHistory,
    /// Set media directory
    SetMediaDir(String),
    /// Refresh media library
    RefreshMediaLibrary,
    /// Toggle auto-refresh (file watching)
    ToggleAutoRefresh,
}

/// The selection after moving down a list of `len` items: the next item,
/// the first after the last (or where nothing was selected); nothing in an
/// empty list.
pub open spec fn next_of(selected: Option<usize>, len: usize) -> Option<usize> {
    if len == 0 {
        selected
    } else {
        match selected {
            Some(i) => if i >= len - 1 { Some(0usize) } else { Some((i + 1) as usize) },
            None => Some(0usize),
        }
    }
}

/// The selection after moving up a list of `len` items: the previous item,
/// the last before the first; the first where nothing was selected.
pub open spec fn prev_of(selected: Option<usize>, len: usize) -> Option<usize> {
    if len == 0 {
        selected
    } else {
        match selected {
            Some(i) => if i == 0 { Some((len - 1) as usize) } else { Some((i - 1) as usize) },
            None => Some(0usize),
        }
    }
}

/// Select the next item of a list (an empty list keeps its selection).
pub fn select_next(selected: Option<usize>, len: usize) -> (r: Option<usize>)
    ensures
        r == next_of(selected, len),
{
    if len == 0 {
        return selected;
    }
    match selected {
        Some(i) => if i >= len - 1 { Some(0) } else { Some(i + 1) },
        None => Some(0),
    }
}

/// Select the previous item of a list (an empty list keeps its selection).
pub fn select_prev(selected: Option<usize>, len: usize) -> (r: Option<usize>)
    ensures
        r == prev_of(selected, len),
{
    if len == 0 {
        return selected;
    }
    match selected {
        Some(i) => if i == 0 { Some(len - 1) } else { Some(i - 1) },
        None => Some(0),
    }
}

/// Moving down then up returns to the item selected, and so does moving up
/// then down; the selection stays in the list.
pub proof fn moving_down_then_up_returns(i: usize, len: usize)
    requires
        i < len,
    ensures
        prev_of(next_of(Some(i), len), len) == Some(i),
        next_of(prev_of(Some(i), len), len) == Some(i),
        next_of(Some(i), len) matches Some(j) && j < len,
        prev_of(Some(i), len) matches Some(j) && j < len,
{
}

/// The indices of the queue items shown for a search: all of them without a
/// query, else those whose title, lower-cased, holds the lower-cased query.
pub open spec fn filtered_of(titles: Seq<Seq<char>>, query: Seq<char>) -> Seq<usize>
    decreases titles.len(),
{
    if titles.len() == 0 {
        Seq::empty()
    } else if query.len() == 0 || contains_seq(lowercase(titles.last()), lowercase(query)) {
        filtered_of(titles.drop_last(), query).push((titles.len() - 1) as usize)
    } else {
        filtered_of(titles.drop_last(), query)
    }
}

pub open spec fn titles_of(items: Seq<QueueDisplayItem>) -> Seq<Seq<char>> {
    items.map_values(|q: QueueDisplayItem| q.title@)
}

/// The queue indices shown for a search query.
pub fn update_search_filter(items: &Vec<QueueDisplayItem>, query: &str) -> (r: Vec<usize>)
    ensures
        r@ == filtered_of(titles_of(items@), query@),
{
    let ghost tv = titles_of(items@);
    let q = chars_of(str_to_lowercase(query).as_str());
    let empty = chars_of(query).len() == 0;
    let mut r: Vec<usize> = Vec::new();
    let mut i: usize = 0;
    while i < items.len()
        invariant
            tv == titles_of(items@),
            q@ == lowercase(query@),
            empty == (query@.len() == 0),
            i <= items@.len(),
            r@ == filtered_of(tv.take(i as int), query@),
        decreases items@.len() - i,
    {
        let ghost t = tv.take(i as int + 1);
        assert(t.drop_last() =~= tv.take(i as int));
        assert(t.last() == items@[i as int].title@);
        if empty || contains_chars(chars_of(str_to_lowercase(items[i].title.as_str()).as_str()).as_slice(), q.as_slice()) {
            r.push(i);
        }
        i = i + 1;
    }
    assert(tv.take(items@.len() as int) =~= tv);
    r
}

/// The selection kept in range after the shown list changed to `len` items.
pub open spec fn clamped(selected: Option<usize>, len: usize) -> Option<usize> {
    match selected {
        None => None,
        Some(i) => if len == 0 {
            None
        } else if i >= len {
            Some((len - 1) as usize)
        } else {
            Some(i)
        },
    }
}

/// Clamp selection to valid range after queue update
pub fn clamp_queue_selection(selected: Option<usize>, len: usize) -> (r: Option<usize>)
    ensures
        r == clamped(selected, len),
        r matches Some(i) ==> i < len,
{
    match selected {
        None => None,
        Some(i) => {
            if len == 0 {
                None
            } else if i >= len {
                Some(len - 1)
            } else {
                Some(i)
            }
        },
    }
}

/// Get interpolated playback position: while playing, the last position
/// plus the seconds since it was reported, at most the duration.
pub fn interpolated_position(playback_state: &str, position: u64, duration: u64, elapsed_secs: Option<u64>) -> (r: u64)
    ensures
        r == (if playback_state@ == "Playing"@ && elapsed_secs is Some {
            if position + elapsed_secs->0 <= u64::MAX {
                if position + elapsed_secs->0 <= duration { (position + elapsed_secs->0) as u64 } else { duration }
            } else {
                duration
            }
        } else {
            position
        }),
{
    if str_eq(playback_state, "Playing") {
        if let Some(elapsed) = elapsed_secs {
            let p = position.saturating_add(elapsed);
            return if p <= duration { p } else { duration };
        }
    }
    position
}


// ---------------------------------------------------------------------------
// Keys
// ---------------------------------------------------------------------------

/// A key press, as the interface tells keys apart.
#[derive(Debug, Clone, Copy, PartialEq, Eq, Structural)]
pub enum Key {
    Esc,
    Enter,
    Backspace,
    Delete,
    Tab,
    Up,
    Down,
    Left,
    Right,
    Char(char),
    /// `c` with the control key.
    CtrlC,
    Other,
}

/// The text being typed, and which input takes it.
#[derive(Debug)]
pub struct TextInputs {
    pub url_mode: bool,
    pub url: String,
    pub dir_mode: bool,
    pub dir: String,
    pub search_mode: bool,
    pub query: String,
}

/// The lists of the interface, and their selections.
#[derive(Debug)]
pub struct Panels {
    pub renderer_count: usize,
    pub selected_renderer: Option<usize>,
    /// For each library entry, whether it is a folder (else a file).
    pub library_folders: Vec<bool>,
    pub selected_library: Option<usize>,
    /// Whether the library shows a folder (not the top level).
    pub in_folder: bool,
    pub history_uris: Vec<String>,
    pub selected_history: Option<usize>,
    pub queue: Vec<QueueDisplayItem>,
    /// The queue indices the search shows.
    pub filtered_queue: Vec<usize>,
    pub selected_queue: Option<usize>,
}

/// What a key press reads and changes.
#[derive(Debug)]
pub struct InputState {
    pub focus: Focus,
    pub should_quit: bool,
    pub status_message: String,
    /// The feedback shown for the last action.
    pub last_action: Option<String>,
    pub inputs: TextInputs,
    pub panels: Panels,
}

pub open spec fn drop_last_char(s: Seq<char>) -> Seq<char> {
    if s.len() > 0 { s.drop_last() } else { s }
}

fn pop_char(s: &mut String)
    ensures
        final(s)@ == drop_last_char(old(s)@),
{
    let cs = crate::text::chars_of(s.as_str());
    if cs.len() > 0 {
        let kept = crate::text::slice_range(cs.as_slice(), 0, cs.len() - 1);
        assert(kept@ =~= old(s)@.drop_last());
        *s = string_from_chars(kept.as_slice());
    }
}

/// How many queue items the queue list shows: the search's matches while a
/// search is typed, else all.
pub open spec fn queue_len(p: Panels, i: TextInputs) -> nat {
    if i.search_mode && i.query@.len() > 0 { p.filtered_queue@.len() } else { p.queue@.len() }
}

/// Whether the selected library entry is a folder (`Some(true)`) or a file.
pub open spec fn selected_entry(p: Panels) -> Option<bool> {
    match p.selected_library {
        Some(i) => if i < p.library_folders@.len() { Some(p.library_folders@[i as int]) } else { None },
        None => None,
    }
}

pub open spec fn selected_uri(p: Panels) -> Option<String> {
    match p.selected_history {
        Some(i) => if i < p.history_uris@.len() { Some(p.history_uris@[i as int]) } else { None },
        None => None,
    }
}

pub open spec fn next_focus(f: Focus) -> Focus {
    match f {
        Focus::Renderers => Focus::Library,
        Focus::Library => Focus::History,
        Focus::History => Focus::Queue,
        Focus::Queue => Focus::Renderers,
    }
}

pub open spec fn label_view(o: Option<String>) -> Option<Seq<char>> {
    match o {
        Some(s) => Some(s@),
        None => None,
    }
}

/// The action and feedback of a key that only asks for an action (normal
/// mode): the key's action and its label.
pub open spec fn simple_key(key: Key) -> Option<(Action, Seq<char>)> {
    match key {
        Key::Left => Some((Action::SeekBackward(10), "⏪ -10s"@)),
        Key::Right => Some((Action::SeekForward(10), "⏩ +10s"@)),
        Key::Char('H') => Some((Action::SeekBackward(30), "⏪ -30s"@)),
        Key::Char('L') => Some((Action::SeekForward(30), "⏩ +30s"@)),
        Key::Char(' ') => Some((Action::PlayPause, "⏯ Play/Pause"@)),
        Key::Char('s') => Some((Action::Stop, "⏹ Stop"@)),
        Key::Char('n') => Some((Action::NextTrack, "⏭ Next"@)),
        Key::Char('p') => Some((Action::PrevTrack, "⏮ Prev"@)),
        Key::Char('+') | Key::Char('=') => Some((Action::VolumeUp, "🔊 Vol+"@)),
        Key::Char('-') => Some((Action::VolumeDown, "🔉 Vol-"@)),
        Key::Char('m') => Some((Action::ToggleMute, "🔇 Mute"@)),
        Key::Char('S') => Some((Action::ToggleShuffle, "🔀 Shuffle"@)),
        Key::Char('R') => Some((Action::CycleRepeat, "🔁 Repeat"@)),
        Key::Char('M') => Some((Action::RefreshMediaLibrary, "🔄 Refresh Media"@)),
        Key::Char('W') => Some((Action::ToggleAutoRefresh, "🔄 Toggle Auto-Refresh"@)),
        Key::Char('r') => Some((Action::RefreshRenderers, "🔄 Refresh"@)),
        _ => None,
    }
}

/// The help shown for `?`.
pub open spec fn help_text() -> Seq<char> {
    "a:Add Enter:📁/▶ ⌫:Back/Del ←→:±10s Space:⏯ s:Stop n/p:Track +/-:Vol /:Search u:URL d:Dir M:Refresh W:AutoWatch"@
}

fn simple_action(key: Key) -> (r: Option<(Action, &'static str)>)
    ensures
        match simple_key(key) {
            Some((a, l)) => r matches Some((b, m)) && b == a && m@ == l,
            None => r is None,
        },
{
    match key {
        Key::Left => Some((Action::SeekBackward(10), "⏪ -10s")),
        Key::Right => Some((Action::SeekForward(10), "⏩ +10s")),
        Key::Char('H') => Some((Action::SeekBackward(30), "⏪ -30s")),
        Key::Char('L') => Some((Action::SeekForward(30), "⏩ +30s")),
        Key::Char(' ') => Some((Action::PlayPause, "⏯ Play/Pause")),
        Key::Char('s') => Some((Action::Stop, "⏹ Stop")),
        Key::Char('n') => Some((Action::NextTrack, "⏭ Next")),
        Key::Char('p') => Some((Action::PrevTrack, "⏮ Prev")),
        Key::Char('+') | Key::Char('=') => Some((Action::VolumeUp, "🔊 Vol+")),
        Key::Char('-') => Some((Action::VolumeDown, "🔉 Vol-")),
        Key::Char('m') => Some((Action::ToggleMute, "🔇 Mute")),
        Key::Char('S') => Some((Action::ToggleShuffle, "🔀 Shuffle")),
        Key::Char('R') => Some((Action::CycleRepeat, "🔁 Repeat")),
        Key::Char('M') => Some((Action::RefreshMediaLibrary, "🔄 Refresh Media")),
        Key::Char('W') => Some((Action::ToggleAutoRefresh, "🔄 Toggle Auto-Refresh")),
        Key::Char('r') => Some((Action::RefreshRenderers, "🔄 Refresh")),
        _ => None,
    }
}

impl InputState {
    fn set_action(&mut self, label: &str)
        ensures
            label_view(final(self).last_action) == Some(label@),
            final(self).focus == old(self).focus,
            final(self).should_quit == old(self).should_quit,
            final(self).status_message == old(self).status_message,
            final(self).inputs == old(self).inputs,
            final(self).panels == old(self).panels,
    {
        self.last_action = Some(String::from_str(label));
    }

    fn refilter(&mut self)
        ensures
            final(self).panels.filtered_queue@ == filtered_of(titles_of(old(self).panels.queue@), old(self).inputs.query@),
            final(self).panels.queue == old(self).panels.queue,
            final(self).panels.renderer_count == old(self).panels.renderer_count,
            final(self).panels.selected_renderer == old(self).panels.selected_renderer,
            final(self).panels.library_folders == old(self).panels.library_folders,
            final(self).panels.selected_library == old(self).panels.selected_library,
            final(self).panels.in_folder == old(self).panels.in_folder,
            final(self).panels.history_uris == old(self).panels.history_uris,
            final(self).panels.selected_history == old(self).panels.selected_history,
            final(self).panels.selected_queue == old(self).panels.selected_queue,
            final(self).inputs == old(self).inputs,
            final(self).focus == old(self).focus,
            final(self).should_quit == old(self).should_quit,
            final(self).status_message == old(self).status_message,
            final(self).last_action == old(self).last_action,
    {
        self.panels.filtered_queue = update_search_filter(&self.panels.queue, self.inputs.query.as_str());
    }

    fn queue_len_exec(&self) -> (r: usize)
        ensures
            r == queue_len(self.panels, self.inputs),
    {
        if self.inputs.search_mode && crate::text::chars_of(self.inputs.query.as_str()).len() > 0 {
            self.panels.filtered_queue.len()
        } else {
            self.panels.queue.len()
        }
    }
}


/// Everything but the text inputs is as it was.
pub open spec fn only_inputs_changed(old: InputState, new: InputState) -> bool {
    new.focus == old.focus && new.should_quit == old.should_quit && new.status_message == old.status_message
        && new.last_action == old.last_action && new.panels == old.panels
}

/// A key while a URL is typed: Esc drops it; Enter hands a URL that parses
/// to the queue (an unparsable one is reported); Backspace and characters
/// edit it.
pub open spec fn url_key(old: InputState, key: Key, new: InputState, r: Option<Action>) -> bool {
    let i = old.inputs;
    let same = new.inputs.dir_mode == i.dir_mode && new.inputs.dir == i.dir
        && new.inputs.search_mode == i.search_mode && new.inputs.query == i.query;
    match key {
        Key::Esc => r is None && !new.inputs.url_mode && new.inputs.url@.len() == 0 && same
            && only_inputs_changed(old, new),
        Key::Enter => if i.url@.len() > 0 {
            match parsed_url(i.url@) {
                Ok(_) => r == Some(Action::AddUrlToQueue(i.url)) && !new.inputs.url_mode && new.inputs.url@.len() == 0
                    && same && label_view(new.last_action) == Some("➕ Adding URL to queue..."@)
                    && new.focus == old.focus && new.should_quit == old.should_quit
                    && new.status_message == old.status_message && new.panels == old.panels,
                Err(e) => r is None && !new.inputs.url_mode && new.inputs.url@.len() == 0 && same
                    && new.status_message@ == "Invalid URL: "@ + e && new.focus == old.focus
                    && new.should_quit == old.should_quit && new.last_action == old.last_action
                    && new.panels == old.panels,
            }
        } else {
            r is None && !new.inputs.url_mode && new.inputs.url == i.url && same && only_inputs_changed(old, new)
        },
        Key::Backspace => r is None && new.inputs.url_mode == i.url_mode && new.inputs.url@ == drop_last_char(i.url@)
            && same && only_inputs_changed(old, new),
        Key::Char(c) => r is None && new.inputs.url_mode == i.url_mode && new.inputs.url@ == i.url@.push(c) && same
            && only_inputs_changed(old, new),
        _ => r is None && new == old,
    }
}

/// A key while a media directory is typed: Esc drops it; Enter asks to set
/// it (where it is not empty); Backspace and characters edit it.
pub open spec fn dir_key(old: InputState, key: Key, new: InputState, r: Option<Action>) -> bool {
    let i = old.inputs;
    let same = new.inputs.url_mode == i.url_mode && new.inputs.url == i.url
        && new.inputs.search_mode == i.search_mode && new.inputs.query == i.query;
    match key {
        Key::Esc => r is None && !new.inputs.dir_mode && new.inputs.dir@.len() == 0 && same
            && only_inputs_changed(old, new),
        Key::Enter => if i.dir@.len() > 0 {
            r == Some(Action::SetMediaDir(i.dir)) && !new.inputs.dir_mode && new.inputs.dir@.len() == 0 && same
                && label_view(new.last_action) == Some("📁 Setting media directory..."@)
                && new.focus == old.focus && new.should_quit == old.should_quit
                && new.status_message == old.status_message && new.panels == old.panels
        } else {
            r is None && !new.inputs.dir_mode && new.inputs.dir == i.dir && same && only_inputs_changed(old, new)
        },
        Key::Backspace => r is None && new.inputs.dir_mode == i.dir_mode && new.inputs.dir@ == drop_last_char(i.dir@)
            && same && only_inputs_changed(old, new),
        Key::Char(c) => r is None && new.inputs.dir_mode == i.dir_mode && new.inputs.dir@ == i.dir@.push(c) && same
            && only_inputs_changed(old, new),
        _ => r is None && new == old,
    }
}

/// The panels with only the queue's filter and selection changed.
pub open spec fn queue_view_changed(old: Panels, new: Panels) -> bool {
    new.renderer_count == old.renderer_count && new.selected_renderer == old.selected_renderer
        && new.library_folders == old.library_folders && new.selected_library == old.selected_library
        && new.in_folder == old.in_folder && new.history_uris == old.history_uris
        && new.selected_history == old.selected_history && new.queue == old.queue
}

/// A key while a search is typed: Esc ends it and shows the whole queue;
/// Enter ends it; Backspace and characters edit the query, which filters the
/// queue and selects its first match; Up and Down move in the matches.
pub open spec fn search_key(old: InputState, key: Key, new: InputState, r: Option<Action>) -> bool {
    let i = old.inputs;
    let same = new.inputs.url_mode == i.url_mode && new.inputs.url == i.url
        && new.inputs.dir_mode == i.dir_mode && new.inputs.dir == i.dir;
    let ui = new.focus == old.focus && new.should_quit == old.should_quit && new.status_message == old.status_message
        && new.last_action == old.last_action;
    r is None && match key {
        Key::Esc => !new.inputs.search_mode && new.inputs.query@.len() == 0 && same && ui
            && queue_view_changed(old.panels, new.panels) && new.panels.selected_queue == old.panels.selected_queue
            && new.panels.filtered_queue@ == filtered_of(titles_of(old.panels.queue@), Seq::empty()),
        Key::Enter => !new.inputs.search_mode && new.inputs.query == i.query && same && ui && new.panels == old.panels,
        Key::Backspace => new.inputs.search_mode == i.search_mode && new.inputs.query@ == drop_last_char(i.query@)
            && same && ui && queue_view_changed(old.panels, new.panels) && new.panels.selected_queue == Some(0usize)
            && new.panels.filtered_queue@ == filtered_of(titles_of(old.panels.queue@), drop_last_char(i.query@)),
        Key::Char(c) => new.inputs.search_mode == i.search_mode && new.inputs.query@ == i.query@.push(c) && same
            && ui && queue_view_changed(old.panels, new.panels) && new.panels.selected_queue == Some(0usize)
            && new.panels.filtered_queue@ == filtered_of(titles_of(old.panels.queue@), i.query@.push(c)),
        Key::Up => new.inputs == i && ui && queue_view_changed(old.panels, new.panels)
            && new.panels.filtered_queue == old.panels.filtered_queue
            && new.panels.selected_queue == prev_of(old.panels.selected_queue, queue_len(old.panels, i) as usize),
        Key::Down => new.inputs == i && ui && queue_view_changed(old.panels, new.panels)
            && new.panels.filtered_queue == old.panels.filtered_queue
            && new.panels.selected_queue == next_of(old.panels.selected_queue, queue_len(old.panels, i) as usize),
        _ => new == old,
    }
}

/// The panels after moving up (`up`) or down in the focused list.
pub open spec fn moved(old: InputState, up: bool, new: Panels) -> bool {
    let p = old.panels;
    let step = |sel: Option<usize>, len: usize| if up { prev_of(sel, len) } else { next_of(sel, len) };
    match old.focus {
        Focus::Renderers => new == Panels { selected_renderer: step(p.selected_renderer, p.renderer_count), ..p },
        Focus::Library => new == Panels { selected_library: step(p.selected_library, p.library_folders@.len() as usize), ..p },
        Focus::History => new == Panels { selected_history: step(p.selected_history, p.history_uris@.len() as usize), ..p },
        Focus::Queue => new == Panels { selected_queue: step(p.selected_queue, queue_len(p, old.inputs) as usize), ..p },
    }
}

/// A key in normal mode.
pub open spec fn normal_key(old: InputState, key: Key, new: InputState, r: Option<Action>) -> bool {
    let p = old.panels;
    let keep = new.inputs == old.inputs && new.panels == p;
    match key {
        Key::Char('q') | Key::Esc | Key::CtrlC => r is None && new.should_quit && keep && new.focus == old.focus
            && new.status_message == old.status_message && new.last_action == old.last_action,
        Key::Tab => new.focus == next_focus(old.focus)
            && r == (if next_focus(old.focus) == Focus::History { Some(Action::RefreshHistory) } else { None })
            && keep && new.should_quit == old.should_quit && new.status_message == old.status_message
            && new.last_action == old.last_action,
        Key::Up | Key::Char('k') | Key::Down | Key::Char('j') => {
            let up = key == Key::Up || key == Key::Char('k');
            moved(old, up, new.panels) && new.inputs == old.inputs && new.focus == old.focus
                && new.should_quit == old.should_quit && new.status_message == old.status_message
                && new.last_action == old.last_action
                && r == (if old.focus == Focus::Renderers && p.renderer_count > 0
                    && new.panels.selected_renderer != p.selected_renderer { Some(Action::DeviceChanged) } else { None })
        },
        Key::Char('/') => r is None && new.inputs.search_mode && new.inputs.query@.len() == 0
            && new.inputs.url_mode == old.inputs.url_mode && new.inputs.url == old.inputs.url
            && new.inputs.dir_mode == old.inputs.dir_mode && new.inputs.dir == old.inputs.dir
            && new.focus == Focus::Queue && label_view(new.last_action) == Some("Search"@) && new.panels == p
            && new.should_quit == old.should_quit && new.status_message == old.status_message,
        Key::Char('u') => r is None && new.inputs.url_mode && new.inputs.url@.len() == 0
            && new.inputs.search_mode == old.inputs.search_mode && new.inputs.query == old.inputs.query
            && new.inputs.dir_mode == old.inputs.dir_mode && new.inputs.dir == old.inputs.dir
            && new.focus == Focus::Library && label_view(new.last_action) == Some("Enter URL"@) && new.panels == p
            && new.should_quit == old.should_quit && new.status_message == old.status_message,
        Key::Char('d') => r is None && new.inputs.dir_mode && new.inputs.dir@.len() == 0
            && new.inputs.search_mode == old.inputs.search_mode && new.inputs.query == old.inputs.query
            && new.inputs.url_mode == old.inputs.url_mode && new.inputs.url == old.inputs.url
            && new.focus == Focus::Library && label_view(new.last_action) == Some("Set Media Dir"@) && new.panels == p
            && new.should_quit == old.should_quit && new.status_message == old.status_message,
        Key::Char('?') => r is None && new.status_message@ == help_text() && keep && new.focus == old.focus
            && new.should_quit == old.should_quit && new.last_action == old.last_action,
        _ => {
            let (act, label): (Option<Action>, Option<Seq<char>>) = match simple_key(key) {
                Some((a, l)) => (Some(a), Some(l)),
                None => match key {
                    Key::Enter => match old.focus {
                        Focus::Renderers => (Some(Action::RefreshStatus), None),
                        Focus::Library => if p.library_folders@.len() > 0 && selected_entry(p) == Some(true) {
                            (Some(Action::EnterFolder), Some("📁 Enter folder"@))
                        } else {
                            (None, None)
                        },
                        Focus::History => if p.history_uris@.len() > 0 && selected_uri(p) is Some {
                            (Some(Action::ResumeFromHistory(selected_uri(p)->0)), Some("▶ Resume from history"@))
                        } else {
                            (None, None)
                        },
                        Focus::Queue => if p.queue@.len() > 0 {
                            (Some(Action::PlayQueueItem), Some("▶ Playing queue item"@))
                        } else {
                            (None, None)
                        },
                    },
                    Key::Char('a') => if old.focus == Focus::Library && selected_entry(p) == Some(false) {
                        (Some(Action::AddToQueue), Some("➕ Add to Queue"@))
                    } else {
                        (None, None)
                    },
                    Key::Backspace | Key::Delete => if old.focus == Focus::Queue && p.queue@.len() > 0 {
                        (Some(Action::RemoveFromQueue), Some("➖ Removing from Queue"@))
                    } else if old.focus == Focus::Library && p.in_folder {
                        (Some(Action::GoParentFolder), Some("📁 Go back"@))
                    } else {
                        (None, None)
                    },
                    _ => (None, None),
                },
            };
            r == act && keep && new.focus == old.focus && new.should_quit == old.should_quit
                && new.status_message == old.status_message
                && label_view(new.last_action) == (match label { Some(l) => Some(l), None => label_view(old.last_action) })
        },
    }
}

/// What a key press does: URL input first, then directory input, then the
/// search, then the normal keys.
pub open spec fn key_outcome(old: InputState, key: Key, new: InputState, r: Option<Action>) -> bool {
    if old.inputs.url_mode {
        url_key(old, key, new, r)
    } else if old.inputs.dir_mode {
        dir_key(old, key, new, r)
    } else if old.inputs.search_mode {
        search_key(old, key, new, r)
    } else {
        normal_key(old, key, new, r)
    }
}

impl InputState {
    fn url_input_key(&mut self, key: Key) -> (r: Option<Action>)
        ensures
            url_key(*old(self), key, *final(self), r),
    {
        match key {
            Key::Esc => {
                self.inputs.url_mode = false;
                self.inputs.url = String::new();
                None
            },
            Key::Enter => {
                if crate::text::chars_of(self.inputs.url.as_str()).len() > 0 {
                    let mut url = String::new();
                    core::mem::swap(&mut url, &mut self.inputs.url);
                    proof {
                        assert(url == old(self).inputs.url);
                    }
                    self.inputs.url_mode = false;
                    match parse_url(url.as_str()) {
                        Ok(_) => {
                            self.set_action("➕ Adding URL to queue...");
                            return Some(Action::AddUrlToQueue(url));
                        },
                        Err(e) => {
                            let mut m = String::new();
                            push_str(&mut m, "Invalid URL: ");
                            push_str(&mut m, e.as_str());
                            self.status_message = m;
                            return None;
                        },
                    }
                }
                self.inputs.url_mode = false;
                None
            },
            Key::Backspace => {
                pop_char(&mut self.inputs.url);
                None
            },
            Key::Char(c) => {
                push_char(&mut self.inputs.url, c);
                None
            },
            _ => None,
        }
    }

    fn dir_input_key(&mut self, key: Key) -> (r: Option<Action>)
        ensures
            dir_key(*old(self), key, *final(self), r),
    {
        match key {
            Key::Esc => {
                self.inputs.dir_mode = false;
                self.inputs.dir = String::new();
                None
            },
            Key::Enter => {
                if crate::text::chars_of(self.inputs.dir.as_str()).len() > 0 {
                    let mut dir = String::new();
                    core::mem::swap(&mut dir, &mut self.inputs.dir);
                    proof {
                        assert(dir == old(self).inputs.dir);
                    }
                    self.inputs.dir_mode = false;
                    self.set_action("📁 Setting media directory...");
                    return Some(Action::SetMediaDir(dir));
                }
                self.inputs.dir_mode = false;
                None
            },
            Key::Backspace => {
                pop_char(&mut self.inputs.dir);
                None
            },
            Key::Char(c) => {
                push_char(&mut self.inputs.dir, c);
                None
            },
            _ => None,
        }
    }

    fn search_input_key(&mut self, key: Key) -> (r: Option<Action>)
        requires
            old(self).inputs.search_mode,
        ensures
            search_key(*old(self), key, *final(self), r),
    {
        match key {
            Key::Esc => {
                self.inputs.search_mode = false;
                self.inputs.query = String::new();
                self.refilter();
            },
            Key::Enter => {
                self.inputs.search_mode = false;
            },
            Key::Backspace => {
                pop_char(&mut self.inputs.query);
                self.refilter();
                self.panels.selected_queue = Some(0);
            },
            Key::Up => {
                let n = self.queue_len_exec();
                self.panels.selected_queue = select_prev(self.panels.selected_queue, n);
            },
            Key::Down => {
                let n = self.queue_len_exec();
                self.panels.selected_queue = select_next(self.panels.selected_queue, n);
            },
            Key::Char(c) => {
                push_char(&mut self.inputs.query, c);
                self.refilter();
                self.panels.selected_queue = Some(0);
            },
            _ => {},
        }
        None
    }

    fn move_selection(&mut self, up: bool)
        ensures
            moved(*old(self), up, final(self).panels),
            final(self).inputs == old(self).inputs,
            final(self).focus == old(self).focus,
            final(self).should_quit == old(self).should_quit,
            final(self).status_message == old(self).status_message,
            final(self).last_action == old(self).last_action,
    {
        match self.focus {
            Focus::Renderers => {
                let n = self.panels.renderer_count;
                let sel = self.panels.selected_renderer;
                self.panels.selected_renderer = if up { select_prev(sel, n) } else { select_next(sel, n) };
            },
            Focus::Library => {
                let n = self.panels.library_folders.len();
                let sel = self.panels.selected_library;
                self.panels.selected_library = if up { select_prev(sel, n) } else { select_next(sel, n) };
            },
            Focus::History => {
                let n = self.panels.history_uris.len();
                let sel = self.panels.selected_history;
                self.panels.selected_history = if up { select_prev(sel, n) } else { select_next(sel, n) };
            },
            Focus::Queue => {
                let n = self.queue_len_exec();
                let sel = self.panels.selected_queue;
                self.panels.selected_queue = if up { select_prev(sel, n) } else { select_next(sel, n) };
            },
        }
    }

    fn selected_entry_exec(&self) -> (r: Option<bool>)
        ensures
            r == selected_entry(self.panels),
    {
        match self.panels.selected_library {
            Some(i) => if i < self.panels.library_folders.len() { Some(self.panels.library_folders[i]) } else { None },
            None => None,
        }
    }

    fn normal_key(&mut self, key: Key) -> (r: Option<Action>)
        requires
            !old(self).inputs.url_mode,
            !old(self).inputs.dir_mode,
            !old(self).inputs.search_mode,
        ensures
            normal_key(*old(self), key, *final(self), r),
    {
        match key {
            Key::Char('q') | Key::Esc | Key::CtrlC => {
                self.should_quit = true;
                return None;
            },
            Key::Tab => {
                self.focus = match self.focus {
                    Focus::Renderers => Focus::Library,
                    Focus::Library => Focus::History,
                    Focus::History => Focus::Queue,
                    Focus::Queue => Focus::Renderers,
                };
                if let Focus::History = self.focus {
                    return Some(Action::RefreshHistory);
                }
                return None;
            },
            Key::Up | Key::Char('k') | Key::Down | Key::Char('j') => {
                let up = match key {
                    Key::Up | Key::Char('k') => true,
                    _ => false,
                };
                let before = self.panels.selected_renderer;
                let on_renderers = match self.focus {
                    Focus::Renderers => true,
                    _ => false,
                };
                self.move_selection(up);
                if on_renderers && self.panels.renderer_count > 0 && self.panels.selected_renderer != before {
                    return Some(Action::DeviceChanged);
                }
                return None;
            },
            Key::Char('/') => {
                self.set_action("Search");
                self.inputs.search_mode = true;
                self.inputs.query = String::new();
                self.focus = Focus::Queue;
                return None;
            },
            Key::Char('u') => {
                self.set_action("Enter URL");
                self.inputs.url_mode = true;
                self.inputs.url = String::new();
                self.focus = Focus::Library;
                return None;
            },
            Key::Char('d') => {
                self.set_action("Set Media Dir");
                self.inputs.dir_mode = true;
                self.inputs.dir = String::new();
                self.focus = Focus::Library;
                return None;
            },
            Key::Char('?') => {
                self.status_message = String::from_str(
                    "a:Add Enter:📁/▶ ⌫:Back/Del ←→:±10s Space:⏯ s:Stop n/p:Track +/-:Vol /:Search u:URL d:Dir M:Refresh W:AutoWatch",
                );
                return None;
            },
            _ => {},
        }
        if let Some((a, label)) = simple_action(key) {
            self.set_action(label);
            return Some(a);
        }
        match key {
            Key::Enter => match self.focus {
                Focus::Renderers => Some(Action::RefreshStatus),
                Focus::Library => {
                    if self.panels.library_folders.len() > 0 {
                        if let Some(true) = self.selected_entry_exec() {
                            self.set_action("📁 Enter folder");
                            return Some(Action::EnterFolder);
                        }
                    }
                    None
                },
                Focus::History => {
                    if self.panels.history_uris.len() > 0 {
                        if let Some(i) = self.panels.selected_history {
                            if i < self.panels.history_uris.len() {
                                let uri = self.panels.history_uris[i].clone();
                                self.set_action("▶ Resume from history");
                                return Some(Action::ResumeFromHistory(uri));
                            }
                        }
                    }
                    None
                },
                Focus::Queue => {
                    if self.panels.queue.len() > 0 {
                        self.set_action("▶ Playing queue item");
                        return Some(Action::PlayQueueItem);
                    }
                    None
                },
            },
            Key::Char('a') => {
                let on_library = match self.focus {
                    Focus::Library => true,
                    _ => false,
                };
                if on_library {
                    if let Some(false) = self.selected_entry_exec() {
                        self.set_action("➕ Add to Queue");
                        return Some(Action::AddToQueue);
                    }
                }
                None
            },
            Key::Backspace | Key::Delete => {
                match self.focus {
                    Focus::Queue => {
                        if self.panels.queue.len() > 0 {
                            self.set_action("➖ Removing from Queue");
                            return Some(Action::RemoveFromQueue);
                        }
                        None
                    },
                    Focus::Library => {
                        if self.panels.in_folder {
                            self.set_action("📁 Go back");
                            return Some(Action::GoParentFolder);
                        }
                        None
                    },
                    _ => None,
                }
            },
            _ => None,
        }
    }

    /// Handle key press - returns action to perform (if any)
    pub fn handle_key(&mut self, key: Key) -> (r: Option<Action>)
        ensures
            key_outcome(*old(self), key, *final(self), r),
    {
        if self.inputs.url_mode {
            return self.url_input_key(key);
        }
        if self.inputs.dir_mode {
            return self.dir_input_key(key);
        }
        if self.inputs.search_mode {
            return self.search_input_key(key);
        }
        self.normal_key(key)
    }
}
} // verus!
