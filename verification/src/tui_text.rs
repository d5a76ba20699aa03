//! The text of the terminal interface's panels: what each line and title
//! says. Drawing it (styles, borders, layout) is left to the caller. Where
//! a text is cut after a number of bytes, that byte must end a character.

use vstd::prelude::*;
use crate::daemon::{width2, MediaFileInfo, RendererEntry};
use crate::fixed::{fixed_text, fixed_text_exec};
use crate::text::{chars_in_bytes, chars_in_bytes_exec, chars_of, decimal, is_char_boundary, push_decimal, push_str, slice_range, string_from_chars, utf8_len, utf8_len_exec};
use crate::tui::{HistoryDisplayItem, QueueDisplayItem};
use crate::tui_actions::{after_last_slash, last_uri_piece};
use crate::tui_library::LibraryEntry;
use crate::tui_status::{selected_device_of, PlayerState, PlayerView};
use crate::utils::{clock, format_duration};

verus! {

/// The texts of a sequence of strings.
pub open spec fn texts(v: Seq<String>) -> Seq<Seq<char>> {
    v.map_values(|s: String| s@)
}

/// The first `n` bytes of `s`.
pub open spec fn first_bytes(s: Seq<char>, n: nat) -> Seq<char> {
    s.take(chars_in_bytes(s, n) as int)
}

/// `s` from byte `n` on.
pub open spec fn from_byte(s: Seq<char>, n: nat) -> Seq<char> {
    s.skip(chars_in_bytes(s, n) as int)
}

/// `s` where it takes at most `max` bytes, else its first `keep` bytes and
/// `...`.
pub open spec fn cut_end(s: Seq<char>, max: nat, keep: nat) -> Seq<char> {
    if utf8_len(s) > max { first_bytes(s, keep) + "..."@ } else { s }
}

/// `s` where it takes at most `max` bytes, else `...` and its last `keep`
/// bytes.
pub open spec fn cut_start(s: Seq<char>, max: nat, keep: nat) -> Seq<char> {
    if utf8_len(s) > max { "..."@ + from_byte(s, (utf8_len(s) - keep) as nat) } else { s }
}

/// Cutting `s` after `max` bytes to `keep` bytes does not split a character.
pub open spec fn cut_end_ok(s: Seq<char>, max: nat, keep: nat) -> bool {
    utf8_len(s) > max ==> is_char_boundary(s, keep)
}

/// Cutting `s` after `max` bytes to its last `keep` bytes does not split a
/// character.
pub open spec fn cut_start_ok(s: Seq<char>, max: nat, keep: nat) -> bool {
    utf8_len(s) > max ==> is_char_boundary(s, (utf8_len(s) - keep) as nat)
}

fn first_bytes_exec(s: &[char], n: usize) -> (r: String)
    ensures
        r@ == first_bytes(s@, n as nat),
{
    let k = chars_in_bytes_exec(s, n as u128);
    let head = slice_range(s, 0, k);
    assert(head@ =~= s@.take(k as int));
    string_from_chars(head.as_slice())
}

pub(crate) fn cut_end_exec(s: &str, max: usize, keep: usize) -> (r: String)
    ensures
        r@ == cut_end(s@, max as nat, keep as nat),
{
    proof {
        reveal_strlit("...");
    }
    let cs = chars_of(s);
    if utf8_len_exec(cs.as_slice()) > max as u128 {
        let mut r = first_bytes_exec(cs.as_slice(), keep);
        push_str(&mut r, "...");
        r
    } else {
        s.to_owned()
    }
}

fn cut_start_exec(s: &str, max: usize, keep: usize) -> (r: String)
    requires
        keep <= max,
    ensures
        r@ == cut_start(s@, max as nat, keep as nat),
{
    proof {
        reveal_strlit("...");
    }
    let cs = chars_of(s);
    let len = utf8_len_exec(cs.as_slice());
    if len > max as u128 {
        let from = len - keep as u128;
        let mut r = String::from_str("...");
        let k = chars_in_bytes_exec(cs.as_slice(), from);
        let tail = slice_range(cs.as_slice(), k, cs.len());
        assert(tail@ =~= cs@.skip(k as int));
        push_str(&mut r, string_from_chars(tail.as_slice()).as_str());
        r
    } else {
        s.to_owned()
    }
}

/// The icon shown before a playback state.
pub open spec fn state_icon(state: Seq<char>) -> Seq<char> {
    if state == "Playing"@ {
        "\u{25b6}"@
    } else if state == "Paused"@ || state == "PausedPlayback"@ {
        "\u{23f8}"@
    } else if state == "Stopped"@ || state == "NoMediaPresent"@ {
        "\u{23f9}"@
    } else {
        "?"@
    }
}

/// The last piece of the current URI, as the header shows it.
pub open spec fn current_piece(p: PlayerView) -> Seq<char> {
    match p.current_uri {
        Some(u) => after_last_slash(u),
        None => "-"@,
    }
}

/// The header's texts: the device, the pending operation or the playback
/// state, the volume, the current file (its first 25 bytes), and the
/// daemon's uptime and streams.
pub open spec fn header_of(p: PlayerView) -> Seq<Seq<char>> {
    seq![
        " "@ + match selected_device_of(p) { Some(d) => d, None => "No device"@ } + " "@,
        match p.pending_operation {
            Some(x) => x,
            None => state_icon(p.playback_state) + " "@ + p.playback_state,
        },
        if p.muted { "[MUTE]"@ } else { "Vol:"@ + decimal(p.volume as nat) + "%"@ },
        if utf8_len(current_piece(p)) > 25 { first_bytes(current_piece(p), 25) } else { current_piece(p) },
        "Up:"@ + clock(p.daemon_uptime as nat) + " Streams:"@ + decimal(p.daemon_streams as nat),
    ]
}

fn state_icon_exec(state: &str) -> (r: &'static str)
    ensures
        r@ == state_icon(state@),
{
    proof {
        reveal_strlit("\u{25b6}");
        reveal_strlit("\u{23f8}");
        reveal_strlit("\u{23f9}");
        reveal_strlit("?");
    }
    if crate::types::str_eq(state, "Playing") {
        "\u{25b6}"
    } else if crate::types::str_eq(state, "Paused") || crate::types::str_eq(state, "PausedPlayback") {
        "\u{23f8}"
    } else if crate::types::str_eq(state, "Stopped") || crate::types::str_eq(state, "NoMediaPresent") {
        "\u{23f9}"
    } else {
        "?"
    }
}

/// The header of the player: device, state, volume, current file, daemon.
pub fn header_spans(p: &PlayerState) -> (r: Vec<String>)
    ensures
        texts(r@) == header_of(p@),
{
    proof {
        reveal_strlit(" ");
        reveal_strlit("No device");
        reveal_strlit("[MUTE]");
        reveal_strlit("Vol:");
        reveal_strlit("%");
        reveal_strlit("-");
        reveal_strlit("Up:");
        reveal_strlit(" Streams:");
    }
    let mut device = String::from_str(" ");
    match p.selected_device() {
        Some(d) => push_str(&mut device, d),
        None => push_str(&mut device, "No device"),
    }
    push_str(&mut device, " ");
    let state = match &p.pending_operation {
        Some(x) => x.clone(),
        None => {
            let mut t = String::from_str(state_icon_exec(p.playback_state.as_str()));
            push_str(&mut t, " ");
            push_str(&mut t, p.playback_state.as_str());
            t
        },
    };
    let volume = if p.muted {
        String::from_str("[MUTE]")
    } else {
        let mut t = String::from_str("Vol:");
        push_decimal(&mut t, p.volume as u64);
        push_str(&mut t, "%");
        t
    };
    let piece = match &p.current_uri {
        Some(u) => last_uri_piece(u.as_str()),
        None => String::from_str("-"),
    };
    let pc = chars_of(piece.as_str());
    let current = if utf8_len_exec(pc.as_slice()) > 25 {
        first_bytes_exec(pc.as_slice(), 25)
    } else {
        piece
    };
    let mut daemon = String::from_str("Up:");
    push_str(&mut daemon, format_duration(p.daemon_uptime).as_str());
    push_str(&mut daemon, " Streams:");
    push_decimal(&mut daemon, p.daemon_streams as u64);
    let mut r: Vec<String> = Vec::new();
    r.push(device);
    r.push(state);
    r.push(volume);
    r.push(current);
    r.push(daemon);
    assert(texts(r@) =~= header_of(p@));
    r
}

/// The progress bar's label: position and duration.
pub fn progress_label(position: u64, duration: u64) -> (r: String)
    ensures
        r@ == " "@ + clock(position as nat) + " / "@ + clock(duration as nat) + " "@,
{
    proof {
        reveal_strlit(" ");
        reveal_strlit(" / ");
    }
    let mut r = String::from_str(" ");
    push_str(&mut r, format_duration(position).as_str());
    push_str(&mut r, " / ");
    push_str(&mut r, format_duration(duration).as_str());
    push_str(&mut r, " ");
    r
}

/// The marker before a list entry.
pub open spec fn marker(selected: bool) -> Seq<char> {
    if selected { "\u{25b8} "@ } else { "  "@ }
}

fn marker_exec(selected: bool) -> (r: String)
    ensures
        r@ == marker(selected),
{
    if selected { String::from_str("\u{25b8} ") } else { String::from_str("  ") }
}

/// A renderer's lines: the marker and name; below the selected one its
/// manufacturer and model, where either is known.
pub open spec fn renderer_lines_of(r: RendererEntry, selected: bool) -> Seq<Seq<char>> {
    let first = marker(selected) + r.name@;
    if selected && (r.model is Some || r.manufacturer is Some) {
        seq![first, match (r.manufacturer, r.model) {
            (Some(m), Some(d)) => "    "@ + m@ + " "@ + d@,
            (Some(m), None) => "    "@ + m@,
            (None, Some(d)) => "    "@ + d@,
            (None, None) => Seq::empty(),
        }]
    } else {
        seq![first]
    }
}

/// A renderer's lines in the device list.
pub fn renderer_lines(r: &RendererEntry, selected: bool) -> (lines: Vec<String>)
    ensures
        texts(lines@) == renderer_lines_of(*r, selected),
{
    proof {
        reveal_strlit("    ");
        reveal_strlit(" ");
    }
    let mut first = marker_exec(selected);
    push_str(&mut first, r.name.as_str());
    let mut lines: Vec<String> = Vec::new();
    lines.push(first);
    if selected && (r.model.is_some() || r.manufacturer.is_some()) {
        let info = match (&r.manufacturer, &r.model) {
            (Some(m), Some(d)) => {
                let mut t = String::from_str("    ");
                push_str(&mut t, m.as_str());
                push_str(&mut t, " ");
                push_str(&mut t, d.as_str());
                t
            },
            (Some(m), None) => {
                let mut t = String::from_str("    ");
                push_str(&mut t, m.as_str());
                t
            },
            (None, Some(d)) => {
                let mut t = String::from_str("    ");
                push_str(&mut t, d.as_str());
                t
            },
            (None, None) => String::new(),
        };
        lines.push(info);
    }
    assert(texts(lines@) =~= renderer_lines_of(*r, selected));
    lines
}

/// A file size as the library list shows it: gigabytes or megabytes with
/// one decimal, else whole kilobytes.
pub open spec fn list_size(size: u64) -> Seq<char> {
    if size >= 0x4000_0000 {
        fixed_text(size as nat, 30, 1) + "G"@
    } else if size >= 0x10_0000 {
        fixed_text(size as nat, 20, 1) + "M"@
    } else {
        fixed_text(size as nat, 10, 0) + "K"@
    }
}

/// A library entry's texts: a folder's marker, icon, name (cut to 15 bytes
/// past 18) and file count; a file's marker, name (cut to 17 bytes past 20)
/// and its duration and size.
pub open spec fn library_spans_of(e: LibraryEntry, selected: bool) -> Seq<Seq<char>> {
    match e {
        LibraryEntry::Folder { name, file_count, .. } => seq![
            marker(selected),
            "\u{1f4c1} "@,
            cut_end(name@, 18, 15),
            " ("@ + decimal(file_count as nat) + ")"@,
        ],
        LibraryEntry::File(f) => seq![
            marker(selected),
            cut_end(f.filename@, 20, 17),
            match f.duration_secs {
                Some(d) => " ["@ + clock(d as nat) + "|"@ + list_size(f.size) + "]"@,
                None => " ["@ + list_size(f.size) + "]"@,
            },
        ],
    }
}

/// The cuts of a library entry's name split no character.
pub open spec fn library_cut_ok(e: LibraryEntry) -> bool {
    match e {
        LibraryEntry::Folder { name, .. } => cut_end_ok(name@, 18, 15),
        LibraryEntry::File(f) => cut_end_ok(f.filename@, 20, 17),
    }
}

fn list_size_exec(size: u64) -> (r: String)
    ensures
        r@ == list_size(size),
{
    proof {
        reveal_strlit("G");
        reveal_strlit("M");
        reveal_strlit("K");
    }
    let mut r;
    if size >= 0x4000_0000 {
        r = fixed_text_exec(size, 30, 1);
        push_str(&mut r, "G");
    } else if size >= 0x10_0000 {
        r = fixed_text_exec(size, 20, 1);
        push_str(&mut r, "M");
    } else {
        r = fixed_text_exec(size, 10, 0);
        push_str(&mut r, "K");
    }
    r
}

/// A library entry's texts in the library list.
pub fn library_spans(e: &LibraryEntry, selected: bool) -> (r: Vec<String>)
    requires
        library_cut_ok(*e),
    ensures
        texts(r@) == library_spans_of(*e, selected),
{
    proof {
        reveal_strlit("\u{1f4c1} ");
        reveal_strlit(" (");
        reveal_strlit(")");
        reveal_strlit(" [");
        reveal_strlit("|");
        reveal_strlit("]");
    }
    let mut r: Vec<String> = Vec::new();
    r.push(marker_exec(selected));
    match e {
        LibraryEntry::Folder { name, file_count, .. } => {
            r.push(String::from_str("\u{1f4c1} "));
            r.push(cut_end_exec(name.as_str(), 18, 15));
            let mut count = String::from_str(" (");
            push_decimal(&mut count, *file_count as u64);
            push_str(&mut count, ")");
            r.push(count);
        },
        LibraryEntry::File(f) => {
            r.push(cut_end_exec(f.filename.as_str(), 20, 17));
            let size = list_size_exec(f.size);
            let mut info = String::from_str(" [");
            match f.duration_secs {
                Some(d) => {
                    push_str(&mut info, format_duration(d).as_str());
                    push_str(&mut info, "|");
                },
                None => {},
            }
            push_str(&mut info, size.as_str());
            push_str(&mut info, "]");
            r.push(info);
        },
    }
    assert(texts(r@) =~= library_spans_of(*e, selected));
    r
}

/// The library's title: the entry count, with the breadcrumb (its last 12
/// bytes past 15) inside a folder.
pub open spec fn library_title_of(breadcrumb: Seq<char>, count: usize) -> Seq<char> {
    if breadcrumb == "/"@ {
        " Library ("@ + decimal(count as nat) + ") "@
    } else {
        " "@ + cut_start(breadcrumb, 15, 12) + " ("@ + decimal(count as nat) + ") "@
    }
}

/// The library panel's title.
pub fn library_title(breadcrumb: &str, count: usize) -> (r: String)
    requires
        cut_start_ok(breadcrumb@, 15, 12),
    ensures
        r@ == library_title_of(breadcrumb@, count),
{
    proof {
        reveal_strlit("/");
        reveal_strlit(" Library (");
        reveal_strlit(") ");
        reveal_strlit(" ");
        reveal_strlit(" (");
    }
    if crate::types::str_eq(breadcrumb, "/") {
        let mut r = String::from_str(" Library (");
        push_decimal(&mut r, count as u64);
        push_str(&mut r, ") ");
        r
    } else {
        let mut r = String::from_str(" ");
        push_str(&mut r, cut_start_exec(breadcrumb, 15, 12).as_str());
        push_str(&mut r, " (");
        push_decimal(&mut r, count as u64);
        push_str(&mut r, ") ");
        r
    }
}

/// A file size as the file panel shows it: gigabytes with two decimals,
/// megabytes with one, else whole kilobytes rounded down.
pub open spec fn info_size(size: u64) -> Seq<char> {
    if size >= 0x4000_0000 {
        fixed_text(size as nat, 30, 2) + " GB"@
    } else if size >= 0x10_0000 {
        fixed_text(size as nat, 20, 1) + " MB"@
    } else {
        decimal(size as nat / 1024) + " KB"@
    }
}

/// The file panel's texts: the path (its last 42 bytes past 45), the size
/// and the MIME type; or that no file is selected.
pub open spec fn file_info_of(file: Option<MediaFileInfo>) -> Seq<Seq<char>> {
    match file {
        Some(f) => seq![cut_start(f.path@, 45, 42), info_size(f.size), f.mime_type@],
        None => seq![" No file selected"@],
    }
}

/// The texts of the file panel.
pub fn file_info_lines(file: Option<&MediaFileInfo>) -> (r: Vec<String>)
    requires
        file matches Some(f) ==> cut_start_ok(f.path@, 45, 42),
    ensures
        texts(r@) == file_info_of(match file {
            Some(f) => Some(*f),
            None => None,
        }),
{
    proof {
        reveal_strlit(" No file selected");
        reveal_strlit(" GB");
        reveal_strlit(" MB");
        reveal_strlit(" KB");
    }
    let mut r: Vec<String> = Vec::new();
    match file {
        Some(f) => {
            r.push(cut_start_exec(f.path.as_str(), 45, 42));
            let mut size;
            if f.size >= 0x4000_0000 {
                size = fixed_text_exec(f.size, 30, 2);
                push_str(&mut size, " GB");
            } else if f.size >= 0x10_0000 {
                size = fixed_text_exec(f.size, 20, 1);
                push_str(&mut size, " MB");
            } else {
                size = String::new();
                push_decimal(&mut size, f.size / 1024);
                push_str(&mut size, " KB");
            }
            r.push(size);
            r.push(f.mime_type.clone());
        },
        None => {
            r.push(String::from_str(" No file selected"));
        },
    }
    proof {
        let file_v = match file {
            Some(f) => Some(*f),
            None => None,
        };
        assert(texts(r@) =~= file_info_of(file_v));
    }
    r
}

/// How long ago a position was saved.
pub open spec fn ago_text(now: u64, saved_at: u64) -> Seq<char> {
    let ago: nat = if now >= saved_at { (now - saved_at) as nat } else { 0 };
    if ago < 60 {
        "just now"@
    } else if ago < 3600 {
        decimal(ago / 60) + "m ago"@
    } else if ago < 86400 {
        decimal(ago / 3600) + "h ago"@
    } else {
        decimal(ago / 86400) + "d ago"@
    }
}

/// A history item's texts: marker, title (cut to 13 bytes past 16),
/// position, duration and the percentage played, and how long ago it was
/// saved (`now` in seconds since the Unix epoch).
pub open spec fn history_lines_of(h: HistoryDisplayItem, selected: bool, now: u64, progress: u8) -> Seq<Seq<char>> {
    seq![
        marker(selected),
        cut_end(h.title@, 16, 13),
        clock(h.position_secs as nat) + "/"@ + clock(h.duration_secs as nat) + " ("@ + decimal(progress as nat) + "%)"@,
        ago_text(now, h.saved_at),
    ]
}

/// A history item's texts; `progress` is the percentage played.
pub fn history_lines(h: &HistoryDisplayItem, selected: bool, now: u64, progress: u8) -> (r: Vec<String>)
    requires
        cut_end_ok(h.title@, 16, 13),
    ensures
        texts(r@) == history_lines_of(*h, selected, now, progress),
{
    proof {
        reveal_strlit("/");
        reveal_strlit(" (");
        reveal_strlit("%)");
        reveal_strlit("just now");
        reveal_strlit("m ago");
        reveal_strlit("h ago");
        reveal_strlit("d ago");
    }
    let mut times = String::from_str(format_duration(h.position_secs).as_str());
    push_str(&mut times, "/");
    push_str(&mut times, format_duration(h.duration_secs).as_str());
    push_str(&mut times, " (");
    push_decimal(&mut times, progress as u64);
    push_str(&mut times, "%)");
    let ago = now.saturating_sub(h.saved_at);
    let ago_str = if ago < 60 {
        String::from_str("just now")
    } else {
        let mut t = String::new();
        if ago < 3600 {
            push_decimal(&mut t, ago / 60);
            push_str(&mut t, "m ago");
        } else if ago < 86400 {
            push_decimal(&mut t, ago / 3600);
            push_str(&mut t, "h ago");
        } else {
            push_decimal(&mut t, ago / 86400);
            push_str(&mut t, "d ago");
        }
        t
    };
    let mut r: Vec<String> = Vec::new();
    r.push(marker_exec(selected));
    r.push(cut_end_exec(h.title.as_str(), 16, 13));
    r.push(times);
    r.push(ago_str);
    assert(texts(r@) =~= history_lines_of(*h, selected, now, progress));
    r
}

/// A queue item's texts: the marker of the item playing, its index in two
/// columns, a URL mark, its title and its duration.
pub open spec fn queue_spans_of(q: QueueDisplayItem, current: Option<usize>) -> Seq<Seq<char>> {
    seq![
        if current == Some(q.index) { "\u{25b6} "@ } else { "  "@ },
        width2(q.index as nat) + "."@,
        " "@,
        if q.is_url { "[URL] "@ } else { Seq::empty() },
        q.title@,
        " "@,
        "["@ + match q.duration { Some(d) => clock(d as nat), None => "--:--"@ } + "]"@,
    ]
}

/// A queue item's texts in the queue list.
pub fn queue_spans(q: &QueueDisplayItem, current: Option<usize>) -> (r: Vec<String>)
    ensures
        texts(r@) == queue_spans_of(*q, current),
{
    proof {
        reveal_strlit("\u{25b6} ");
        reveal_strlit("  ");
        reveal_strlit(".");
        reveal_strlit(" ");
        reveal_strlit("[URL] ");
        reveal_strlit("[");
        reveal_strlit("--:--");
        reveal_strlit("]");
    }
    let mut r: Vec<String> = Vec::new();
    let is_current = match current {
        Some(c) => c == q.index,
        None => false,
    };
    r.push(if is_current { String::from_str("\u{25b6} ") } else { String::from_str("  ") });
    let mut index = String::new();
    if q.index < 10 {
        push_str(&mut index, " ");
    }
    push_decimal(&mut index, q.index as u64);
    push_str(&mut index, ".");
    assert(index@ =~= width2(q.index as nat) + "."@);
    r.push(index);
    r.push(String::from_str(" "));
    r.push(if q.is_url { String::from_str("[URL] ") } else { String::new() });
    r.push(q.title.clone());
    r.push(String::from_str(" "));
    let mut dur = String::from_str("[");
    match q.duration {
        Some(d) => push_str(&mut dur, format_duration(d).as_str()),
        None => push_str(&mut dur, "--:--"),
    }
    push_str(&mut dur, "]");
    let ghost dv = "["@ + match q.duration { Some(d) => clock(d as nat), None => "--:--"@ } + "]"@;
    assert(dur@ =~= dv);
    r.push(dur);
    proof {
        let sv = queue_spans_of(*q, current);
        assert(texts(r@)[0] == sv[0]);
        assert(texts(r@)[1] == sv[1]);
        assert(texts(r@)[3] == sv[3]);
        assert(texts(r@)[4] == sv[4]);
        assert(texts(r@)[6] == sv[6]);
        assert(texts(r@) =~= sv);
    }
    r
}

/// The queue items shown: those the search keeps while searching, else all.
pub open spec fn shown_queue_of(p: PlayerView, search_mode: bool) -> Seq<usize> {
    if search_mode && p.search_query.len() > 0 {
        kept_in_queue(p.filtered_queue_indices, p.queue_items.len())
    } else {
        Seq::new(p.queue_items.len(), |i: int| i as usize)
    }
}

/// The indices of `ix` that point into a queue of `len` items, in order.
pub open spec fn kept_in_queue(ix: Seq<usize>, len: nat) -> Seq<usize>
    decreases ix.len(),
{
    if ix.len() == 0 {
        Seq::empty()
    } else if (ix.last() as nat) < len {
        kept_in_queue(ix.drop_last(), len).push(ix.last())
    } else {
        kept_in_queue(ix.drop_last(), len)
    }
}

/// The indices of the queue items shown.
pub fn shown_queue(p: &PlayerState, search_mode: bool) -> (r: Vec<usize>)
    ensures
        r@ == shown_queue_of(p@, search_mode),
{
    let mut r: Vec<usize> = Vec::new();
    let len = p.queue_items.len();
    assert(p@.queue_items.len() == len);
    if search_mode && chars_of(p.search_query.as_str()).len() > 0 {
        let ix = &p.filtered_queue_indices;
        let mut i: usize = 0;
        assert(ix@.take(0) =~= Seq::<usize>::empty());
        while i < ix.len()
            invariant
                i <= ix@.len(),
                ix@ == p@.filtered_queue_indices,
                len == p@.queue_items.len(),
                r@ == kept_in_queue(ix@.take(i as int), len as nat),
            decreases ix@.len() - i,
        {
            assert(ix@.take(i + 1).drop_last() =~= ix@.take(i as int));
            if ix[i] < len {
                r.push(ix[i]);
            }
            i = i + 1;
        }
        assert(ix@.take(ix@.len() as int) =~= ix@);
    } else {
        let mut i: usize = 0;
        while i < len
            invariant
                i <= len,
                len == p@.queue_items.len(),
                r@ == Seq::new(i as nat, |k: int| k as usize),
            decreases len - i,
        {
            r.push(i);
            i = i + 1;
            assert(r@ =~= Seq::new(i as nat, |k: int| k as usize));
        }
    }
    r
}

/// The queue's title: the count shown and the shuffle and repeat marks.
pub open spec fn queue_title_of(count: usize, shuffle: bool, repeat: Seq<char>) -> Seq<char> {
    " Queue ("@ + decimal(count as nat) + ") "@ + (if shuffle { "\u{1f500}"@ } else { Seq::empty() }) + " "@
        + (if repeat == "one"@ { "\u{1f502}"@ } else if repeat == "all"@ { "\u{1f501}"@ } else { Seq::empty() }) + " "@
}

/// The queue panel's title.
pub fn queue_title(count: usize, shuffle: bool, repeat: &str) -> (r: String)
    ensures
        r@ == queue_title_of(count, shuffle, repeat@),
{
    proof {
        reveal_strlit(" Queue (");
        reveal_strlit(") ");
        reveal_strlit("\u{1f500}");
        reveal_strlit(" ");
        reveal_strlit("\u{1f502}");
        reveal_strlit("\u{1f501}");
    }
    let mut r = String::from_str(" Queue (");
    push_decimal(&mut r, count as u64);
    push_str(&mut r, ") ");
    if shuffle {
        push_str(&mut r, "\u{1f500}");
    }
    push_str(&mut r, " ");
    if crate::types::str_eq(repeat, "one") {
        push_str(&mut r, "\u{1f502}");
    } else if crate::types::str_eq(repeat, "all") {
        push_str(&mut r, "\u{1f501}");
    }
    push_str(&mut r, " ");
    r
}

/// The help line of the status bar.
pub open spec fn help_text(search_mode: bool) -> Seq<char> {
    if search_mode {
        "Enter:confirm | Esc:cancel | Type to search"@
    } else {
        "Space:\u{23ef} | \u{2190}\u{2192}:Seek | n/p:Track | +/-:Vol | /:Search | ?:Help | q:Quit"@
    }
}

/// The status bar's texts: the last action's feedback (where there is one)
/// and a separator, the status message, a separator and the help line.
pub open spec fn status_spans_of(search_mode: bool, last_action: Option<Seq<char>>, status: Seq<char>) -> Seq<Seq<char>> {
    let tail = seq![" "@ + status + " "@, " \u{2502} "@, help_text(search_mode)];
    match last_action {
        Some(a) => seq![" "@ + a + " "@, " \u{2502} "@] + tail,
        None => tail,
    }
}

/// The texts of the status bar.
pub fn status_spans(search_mode: bool, last_action: &Option<String>, status: &str) -> (r: Vec<String>)
    ensures
        texts(r@) == status_spans_of(search_mode, match last_action {
            Some(a) => Some(a@),
            None => None,
        }, status@),
{
    proof {
        reveal_strlit(" ");
        reveal_strlit(" \u{2502} ");
        reveal_strlit("Enter:confirm | Esc:cancel | Type to search");
        reveal_strlit("Space:\u{23ef} | \u{2190}\u{2192}:Seek | n/p:Track | +/-:Vol | /:Search | ?:Help | q:Quit");
    }
    let mut r: Vec<String> = Vec::new();
    if let Some(a) = last_action {
        let mut t = String::from_str(" ");
        push_str(&mut t, a.as_str());
        push_str(&mut t, " ");
        r.push(t);
        r.push(String::from_str(" \u{2502} "));
    }
    let mut t = String::from_str(" ");
    push_str(&mut t, status);
    push_str(&mut t, " ");
    r.push(t);
    r.push(String::from_str(" \u{2502} "));
    r.push(String::from_str(if search_mode {
        "Enter:confirm | Esc:cancel | Type to search"
    } else {
        "Space:\u{23ef} | \u{2190}\u{2192}:Seek | n/p:Track | +/-:Vol | /:Search | ?:Help | q:Quit"
    }));
    proof {
        let la = match last_action {
            Some(a) => Some(a@),
            None => None,
        };
        assert(texts(r@) =~= status_spans_of(search_mode, la, status@));
    }
    r
}

/// Where the URL popup stands in a screen of `width` by `height`: its
/// column, row, width and height, centred, at most 60 wide and 3 high.
pub fn url_popup_area(width: u16, height: u16) -> (r: (u16, u16, u16, u16))
    ensures
        r.2 == (if width >= 4 && width - 4 < 60 { (width - 4) as u16 } else if width < 4 { 0u16 } else { 60u16 }),
        r.3 == 3,
        r.0 == (if width >= r.2 { ((width - r.2) / 2) as u16 } else { 0u16 }),
        r.1 == (if height >= 3 { ((height - 3) / 2) as u16 } else { 0u16 }),
{
    let avail = width.saturating_sub(4);
    let w: u16 = if 60 < avail { 60 } else { avail };
    let h: u16 = 3;
    (width.saturating_sub(w) / 2, height.saturating_sub(h) / 2, w, h)
}

} // verus!
