//! What the terminal interface asks of the daemon, and what it makes of the
//! replies. A key press becomes an action; an action changes the shown state
//! and yields tasks; the caller sends each task's request and hands the
//! reply back, which yields the next step: a result to apply, a further
//! request, or nothing.

use vstd::prelude::*;
use crate::daemon::{DaemonCommand, PositionEntry, Response, ResponseData};
use crate::text::{chars_of, decimal, push_decimal, push_str, slice_range, string_from_chars};
use crate::tui::{Action, HistoryDisplayItem};
use crate::tui_library::{entered_folder, went_to_parent, LibraryEntry, LibraryState};
use crate::tui_text::{cut_end, cut_end_exec, cut_end_ok};
use crate::tui::clamp_queue_selection;
use crate::tui::clamped;
use crate::tui_library::reset_selection;
use crate::tui_status::{filter_of, os, queue_views_of, selected_device_of, BackgroundResult, PlayerState, PlayerView, QueueView, StatusUpdateData};

verus! {

/// How the reply to a request becomes a background result.
#[derive(Debug)]
pub enum ReplyRule {
    /// Success reports this message.
    Done(String),
    /// Success with volume data reports the volume; other success this message.
    Volume(String),
    /// Success lists the device's queue next, to report with this message.
    ThenListQueue { device: String, message: String },
    /// The queue comes back as a queue update with this message; anything
    /// else reports the message as done.
    QueueListed(String),
    /// Setting the media directory `0`; success reports the files found.
    MediaDir(String),
    /// The saved positions become the history; anything else is dropped.
    History,
    /// The renderers found, or the discovery error.
    Discovery,
    /// The device's queue, as a quiet queue update.
    QueueRefresh,
    /// The daemon's uptime and streams.
    DaemonInfo,
    /// Renderer events, where there are any.
    Events,
    /// Whether subscribing to the device's events worked.
    Subscribe(String),
    /// The size of the media library.
    MediaCount,
    /// Auto-refresh was asked to become `0`.
    AutoRefresh(bool),
    /// Nothing is made of the reply.
    Ignore,
}

/// What follows a reply.
#[derive(Debug)]
pub enum Step {
    Report(BackgroundResult),
    Send(DaemonCommand, ReplyRule),
    Nothing,
}

/// The text of a reply that failed: the daemon's refusal, or the error of
/// sending the request.
pub open spec fn error_text(reply: Result<Response, String>) -> Option<Seq<char>> {
    match reply {
        Ok(Response::Failure { message }) => Some(message@),
        Ok(Response::Success { .. }) => None,
        Err(e) => Some(e@),
    }
}

pub open spec fn reports_success(step: Step, m: Seq<char>) -> bool {
    step matches Step::Report(BackgroundResult::OperationSuccess(x)) && x@ == m
}

pub open spec fn reports_error(step: Step, m: Seq<char>) -> bool {
    step matches Step::Report(BackgroundResult::OperationError(x)) && x@ == m
}

/// The part of a URI after its last `/` (all of it where it has none).
pub open spec fn after_last_slash(s: Seq<char>) -> Seq<char>
    decreases s.len(),
{
    if s.len() == 0 {
        s
    } else if s.last() == '/' {
        Seq::empty()
    } else {
        after_last_slash(s.drop_last()).push(s.last())
    }
}

/// The history items shown for saved positions: each titled by the last
/// piece of its URI.
pub open spec fn history_of(positions: Seq<PositionEntry>, items: Seq<HistoryDisplayItem>) -> bool {
    &&& items.len() == positions.len()
    &&& forall|i: int| 0 <= i < items.len() ==> {
        let p = #[trigger] positions[i];
        let h = items[i];
        h.uri@ == p.uri@ && h.title@ == after_last_slash(p.uri@) && h.position_secs == p.position_secs
            && h.duration_secs == p.duration_secs && h.device@ == p.device@ && h.saved_at == p.saved_at
    }
}

/// The step that follows the reply `reply` to a request sent under `rule`.
pub open spec fn reply_step(rule: ReplyRule, reply: Result<Response, String>, step: Step) -> bool {
    match rule {
        ReplyRule::Done(m) => match error_text(reply) {
            Some(e) => reports_error(step, e),
            None => reports_success(step, m@),
        },
        ReplyRule::Volume(m) => match error_text(reply) {
            Some(e) => reports_error(step, e),
            None => match reply {
                Ok(Response::Success { data: Some(ResponseData::Volume { volume, .. }) }) =>
                    reports_success(step, "Vol "@ + decimal(volume as nat) + "%"@),
                _ => reports_success(step, m@),
            },
        },
        ReplyRule::ThenListQueue { device, message } => match error_text(reply) {
            Some(e) => reports_error(step, e),
            None => step matches Step::Send(DaemonCommand::QueueList { device: d }, ReplyRule::QueueListed(m))
                && d@ == device@ && m@ == message@,
        },
        ReplyRule::QueueListed(m) => match reply {
            Ok(Response::Success { data: Some(ResponseData::Queue { items, current_index, shuffle, repeat }) }) =>
                step == Step::Report(BackgroundResult::QueueUpdated { message: m, items, current_index, shuffle, repeat }),
            _ => reports_success(step, m@),
        },
        ReplyRule::MediaDir(path) => match error_text(reply) {
            Some(e) => reports_error(step, e),
            None => match reply {
                Ok(Response::Success { data: Some(ResponseData::FileCount { count }) }) =>
                    reports_success(step, "Set dir: "@ + path@ + " ("@ + decimal(count as nat) + " files)"@),
                _ => reports_success(step, "Set dir: "@ + path@),
            },
        },
        ReplyRule::History => match reply {
            Ok(Response::Success { data: Some(ResponseData::Positions { positions }) }) =>
                step matches Step::Report(BackgroundResult::HistoryRefreshed(items)) && history_of(positions@, items@),
            _ => step is Nothing,
        },
        ReplyRule::Discovery => match reply {
            Ok(Response::Success { data: Some(ResponseData::Renderers { renderers }) }) =>
                step == Step::Report(BackgroundResult::Renderers(renderers)),
            Ok(Response::Success { .. }) =>
                step matches Step::Report(BackgroundResult::DiscoveryError(x)) && x@ == "Unknown error"@,
            Ok(Response::Failure { message }) =>
                step matches Step::Report(BackgroundResult::DiscoveryError(x)) && x@ == message@,
            Err(e) => step matches Step::Report(BackgroundResult::DiscoveryError(x)) && x@ == e@,
        },
        ReplyRule::QueueRefresh => match reply {
            Ok(Response::Success { data: Some(ResponseData::Queue { items, current_index, shuffle, repeat }) }) =>
                step matches Step::Report(BackgroundResult::QueueUpdated { message, items: i, current_index: c, shuffle: s, repeat: r })
                    && message@.len() == 0 && i == items && c == current_index && s == shuffle && r == repeat,
            _ => step is Nothing,
        },
        ReplyRule::DaemonInfo => match reply {
            Ok(Response::Success { data: Some(ResponseData::DaemonInfo { uptime_secs, active_streams, .. }) }) =>
                step == Step::Report(BackgroundResult::DaemonInfoUpdate { uptime_secs, active_streams }),
            _ => step is Nothing,
        },
        ReplyRule::Events => match reply {
            Ok(Response::Success { data: Some(ResponseData::Events { events }) }) => if events@.len() > 0 {
                step == Step::Report(BackgroundResult::EventsReceived(events))
            } else {
                step is Nothing
            },
            _ => step is Nothing,
        },
        ReplyRule::Subscribe(device) =>
            step == Step::Report(BackgroundResult::SubscriptionResult { device, success: reply matches Ok(Response::Success { .. }) }),
        ReplyRule::MediaCount => match reply {
            Ok(Response::Success { data: Some(ResponseData::MediaFiles { files }) }) =>
                reports_success(step, "Media library: "@ + decimal(files@.len()) + " files"@),
            _ => step is Nothing,
        },
        ReplyRule::AutoRefresh(new_state) => match reply {
            Ok(Response::Success { data: Some(ResponseData::AutoRefresh { enabled }) }) =>
                step == Step::Report(BackgroundResult::AutoRefreshChanged(enabled)),
            Ok(Response::Success { .. }) => step == Step::Report(BackgroundResult::AutoRefreshChanged(new_state)),
            Ok(Response::Failure { message }) => reports_error(step, message@),
            Err(e) => reports_error(step, e@),
        },
        ReplyRule::Ignore => step is Nothing,
    }
}

/// The part of `s` after its last `/`.
pub fn last_uri_piece(s: &str) -> (r: String)
    ensures
        r@ == after_last_slash(s@),
{
    let cs = chars_of(s);
    let mut k: usize = cs.len();
    assert(cs@.take(k as int) =~= cs@);
    assert(cs@.skip(k as int) =~= Seq::<char>::empty());
    while k > 0 && cs[k - 1] != '/'
        invariant
            k <= cs@.len(),
            cs@ == s@,
            after_last_slash(s@) == after_last_slash(cs@.take(k as int)) + cs@.skip(k as int),
        decreases k,
    {
        let ghost t = cs@.take(k as int);
        assert(t.drop_last() =~= cs@.take(k - 1));
        assert(t.last() == cs@[k - 1]);
        assert(after_last_slash(t) == after_last_slash(cs@.take(k - 1)).push(cs@[k - 1]));
        assert(after_last_slash(cs@.take(k - 1)).push(cs@[k - 1]) + cs@.skip(k as int)
            =~= after_last_slash(cs@.take(k - 1)) + cs@.skip(k - 1));
        k = k - 1;
    }
    if k > 0 {
        let ghost t = cs@.take(k as int);
        assert(t.last() == '/');
        assert(after_last_slash(t) =~= Seq::<char>::empty());
    } else {
        assert(cs@.take(0) =~= Seq::<char>::empty());
    }
    let rest = slice_range(cs.as_slice(), k, cs.len());
    assert(rest@ =~= cs@.skip(k as int));
    string_from_chars(rest.as_slice())
}

/// The history items shown for saved positions.
pub fn history_items(positions: Vec<PositionEntry>) -> (r: Vec<HistoryDisplayItem>)
    ensures
        history_of(positions@, r@),
{
    let ghost all = positions@;
    let ghost n = positions@.len();
    let mut positions = positions;
    let mut out: Vec<HistoryDisplayItem> = Vec::new();
    while positions.len() > 0
        invariant
            positions@.len() <= n,
            all.len() == n,
            positions@ == all.skip(n - positions@.len()),
            out@.len() == n - positions@.len(),
            forall|i: int| 0 <= i < out@.len() ==> {
                let p = #[trigger] all[i];
                let h = out@[i];
                h.uri@ == p.uri@ && h.title@ == after_last_slash(p.uri@) && h.position_secs == p.position_secs
                    && h.duration_secs == p.duration_secs && h.device@ == p.device@ && h.saved_at == p.saved_at
            },
        decreases positions@.len(),
    {
        let ghost done = n - positions@.len();
        let p = positions.remove(0);
        assert(p == all[done]);
        assert(positions@ =~= all.skip(done + 1));
        let title = last_uri_piece(p.uri.as_str());
        out.push(HistoryDisplayItem {
            uri: p.uri,
            title,
            position_secs: p.position_secs,
            duration_secs: p.duration_secs,
            device: p.device,
            saved_at: p.saved_at,
        });
    }
    out
}

fn success(m: String) -> (r: Step)
    ensures
        reports_success(r, m@),
{
    Step::Report(BackgroundResult::OperationSuccess(m))
}

fn failure(m: String) -> (r: Step)
    ensures
        reports_error(r, m@),
{
    Step::Report(BackgroundResult::OperationError(m))
}

/// The step that follows a reply to a request sent under `rule`; `Err`
/// holds the error of sending the request.
pub fn on_reply(rule: ReplyRule, reply: Result<Response, String>) -> (r: Step)
    ensures
        reply_step(rule, reply, r),
{
    proof {
        reveal_strlit("Vol ");
        reveal_strlit("%");
        reveal_strlit("Set dir: ");
        reveal_strlit(" (");
        reveal_strlit(" files)");
        reveal_strlit("Unknown error");
        reveal_strlit("Media library: ");
        reveal_strlit(" files");
    }
    match rule {
        ReplyRule::Done(m) => match reply {
            Ok(Response::Success { .. }) => success(m),
            Ok(Response::Failure { message }) => failure(message),
            Err(e) => failure(e),
        },
        ReplyRule::Volume(m) => match reply {
            Ok(Response::Success { data: Some(ResponseData::Volume { volume, .. }) }) => {
                let mut t = String::from_str("Vol ");
                push_decimal(&mut t, volume as u64);
                push_str(&mut t, "%");
                success(t)
            },
            Ok(Response::Success { .. }) => success(m),
            Ok(Response::Failure { message }) => failure(message),
            Err(e) => failure(e),
        },
        ReplyRule::ThenListQueue { device, message } => match reply {
            Ok(Response::Success { .. }) => Step::Send(DaemonCommand::QueueList { device }, ReplyRule::QueueListed(message)),
            Ok(Response::Failure { message }) => failure(message),
            Err(e) => failure(e),
        },
        ReplyRule::QueueListed(m) => match reply {
            Ok(Response::Success { data: Some(ResponseData::Queue { items, current_index, shuffle, repeat }) }) =>
                Step::Report(BackgroundResult::QueueUpdated { message: m, items, current_index, shuffle, repeat }),
            _ => success(m),
        },
        ReplyRule::MediaDir(path) => match reply {
            Ok(Response::Success { data: Some(ResponseData::FileCount { count }) }) => {
                let mut t = String::from_str("Set dir: ");
                push_str(&mut t, path.as_str());
                push_str(&mut t, " (");
                push_decimal(&mut t, count as u64);
                push_str(&mut t, " files)");
                success(t)
            },
            Ok(Response::Success { .. }) => {
                let mut t = String::from_str("Set dir: ");
                push_str(&mut t, path.as_str());
                success(t)
            },
            Ok(Response::Failure { message }) => failure(message),
            Err(e) => failure(e),
        },
        ReplyRule::History => match reply {
            Ok(Response::Success { data: Some(ResponseData::Positions { positions }) }) =>
                Step::Report(BackgroundResult::HistoryRefreshed(history_items(positions))),
            _ => Step::Nothing,
        },
        ReplyRule::Discovery => match reply {
            Ok(Response::Success { data: Some(ResponseData::Renderers { renderers }) }) =>
                Step::Report(BackgroundResult::Renderers(renderers)),
            Ok(Response::Success { .. }) => Step::Report(BackgroundResult::DiscoveryError(String::from_str("Unknown error"))),
            Ok(Response::Failure { message }) => Step::Report(BackgroundResult::DiscoveryError(message)),
            Err(e) => Step::Report(BackgroundResult::DiscoveryError(e)),
        },
        ReplyRule::QueueRefresh => match reply {
            Ok(Response::Success { data: Some(ResponseData::Queue { items, current_index, shuffle, repeat }) }) =>
                Step::Report(BackgroundResult::QueueUpdated { message: String::new(), items, current_index, shuffle, repeat }),
            _ => Step::Nothing,
        },
        ReplyRule::DaemonInfo => match reply {
            Ok(Response::Success { data: Some(ResponseData::DaemonInfo { uptime_secs, active_streams, .. }) }) =>
                Step::Report(BackgroundResult::DaemonInfoUpdate { uptime_secs, active_streams }),
            _ => Step::Nothing,
        },
        ReplyRule::Events => match reply {
            Ok(Response::Success { data: Some(ResponseData::Events { events }) }) => if events.len() > 0 {
                Step::Report(BackgroundResult::EventsReceived(events))
            } else {
                Step::Nothing
            },
            _ => Step::Nothing,
        },
        ReplyRule::Subscribe(device) => {
            let success = match reply {
                Ok(Response::Success { .. }) => true,
                _ => false,
            };
            Step::Report(BackgroundResult::SubscriptionResult { device, success })
        },
        ReplyRule::MediaCount => match reply {
            Ok(Response::Success { data: Some(ResponseData::MediaFiles { files }) }) => {
                let mut t = String::from_str("Media library: ");
                push_decimal(&mut t, files.len() as u64);
                push_str(&mut t, " files");
                success(t)
            },
            _ => Step::Nothing,
        },
        ReplyRule::AutoRefresh(new_state) => match reply {
            Ok(Response::Success { data: Some(ResponseData::AutoRefresh { enabled }) }) =>
                Step::Report(BackgroundResult::AutoRefreshChanged(enabled)),
            Ok(Response::Success { .. }) => Step::Report(BackgroundResult::AutoRefreshChanged(new_state)),
            Ok(Response::Failure { message }) => failure(message),
            Err(e) => failure(e),
        },
        ReplyRule::Ignore => Step::Nothing,
    }
}

/// Work the interface hands to the caller.
#[derive(Debug)]
pub enum Task {
    /// Send the request; the reply goes to `on_reply` with the rule.
    Send(DaemonCommand, ReplyRule),
    /// Ask the device's playback status and volume at once, each with a time
    /// limit, and hand both replies to `status_update_of`.
    RefreshStatus(String),
}

/// The status poll's data from the replies to the playback status and
/// volume requests (none where a request failed or timed out).
pub fn status_update_of(device: String, status: Option<Response>, volume: Option<Response>) -> (r: StatusUpdateData)
    ensures
        r.device == device,
        match status {
            Some(Response::Success { data: Some(ResponseData::Playback { state, position_secs, duration_secs, current_uri }) }) =>
                r.playback_state == Some(state) && r.playback_position == Some(position_secs)
                    && r.playback_duration == Some(duration_secs) && r.current_uri == current_uri,
            _ => r.playback_state is None && r.playback_position is None && r.playback_duration is None
                && r.current_uri is None,
        },
        match volume {
            Some(Response::Success { data: Some(ResponseData::Volume { volume, muted }) }) =>
                r.volume == Some(volume) && r.muted == Some(muted),
            _ => r.volume is None && r.muted is None,
        },
        r.queue_items is None,
        r.queue_current is None,
        r.shuffle is None,
        r.repeat is None,
{
    let mut data = StatusUpdateData {
        device,
        playback_state: None,
        playback_position: None,
        playback_duration: None,
        current_uri: None,
        volume: None,
        muted: None,
        queue_items: None,
        queue_current: None,
        shuffle: None,
        repeat: None,
    };
    if let Some(Response::Success { data: Some(ResponseData::Playback { state, position_secs, duration_secs, current_uri }) }) = status {
        data.playback_state = Some(state);
        data.playback_position = Some(position_secs);
        data.playback_duration = Some(duration_secs);
        data.current_uri = current_uri;
    }
    if let Some(Response::Success { data: Some(ResponseData::Volume { volume, muted }) }) = volume {
        data.volume = Some(volume);
        data.muted = Some(muted);
    }
    data
}

/// The selected queue item, through the search filter.
pub open spec fn queue_item_of(p: PlayerView) -> Option<QueueView> {
    match p.selected_queue {
        Some(i) => if i < p.filtered_queue_indices.len() && p.filtered_queue_indices[i as int] < p.queue_items.len() {
            Some(p.queue_items[p.filtered_queue_indices[i as int] as int])
        } else {
            None
        },
        None => None,
    }
}

/// Whether the position is worth saving before pausing or stopping.
pub open spec fn save_due(p: PlayerView) -> bool {
    p.current_uri is Some && p.playback_position >= 5
}

/// The repeat mode after `mode` in the cycle none, all, one.
pub open spec fn next_repeat(mode: Seq<char>) -> Seq<char> {
    if mode == "none"@ { "all"@ } else if mode == "all"@ { "one"@ } else { "none"@ }
}

/// The seek target `secs` seconds back.
pub open spec fn seek_back_target(p: PlayerView, secs: u64) -> u64 {
    if p.playback_position >= secs { (p.playback_position - secs) as u64 } else { 0 }
}

/// The seek target `secs` seconds ahead: before the end where the duration
/// is known.
pub open spec fn seek_ahead_target(p: PlayerView, secs: u64) -> u64 {
    let ahead: u64 = if p.playback_position + secs <= u64::MAX { (p.playback_position + secs) as u64 } else { u64::MAX };
    if p.playback_duration > 0 && ahead > p.playback_duration - 1 { (p.playback_duration - 1) as u64 } else { ahead }
}

/// The task is the request `c` whose reply reports `m` as done.
pub open spec fn sends_done(t: Task, m: Seq<char>) -> bool {
    t matches Task::Send(_, ReplyRule::Done(x)) && x@ == m
}

/// The state after the position was saved, where that is due.
pub open spec fn after_save(p: PlayerView, now: u64) -> PlayerView {
    if save_due(p) { PlayerView { last_position_save: Some(now), ..p } } else { p }
}

/// `ts` saves the position of device `d` first where that is due, and then
/// holds the one request that `main` describes.
pub open spec fn saves_then(p: PlayerView, d: Seq<char>, ts: Seq<Task>, main: spec_fn(Task) -> bool) -> bool {
    if save_due(p) {
        ts.len() == 2 && (ts[0] matches Task::Send(DaemonCommand::SavePosition { device }, ReplyRule::Ignore) && device@ == d)
            && main(ts[1])
    } else {
        ts.len() == 1 && main(ts[0])
    }
}

/// `ts` is the one task that `main` describes.
pub open spec fn only(ts: Seq<Task>, main: spec_fn(Task) -> bool) -> bool {
    ts.len() == 1 && main(ts[0])
}

/// The message shown when an action needs a renderer and none is selected.
pub open spec fn no_device(p: PlayerView) -> PlayerView {
    PlayerView { status_message: "No device selected"@, ..p }
}

/// What an action does to the player state (`p0` before, `p1` after) and
/// the library (`l0`, `l1`), and the tasks `ts` it hands out; `now` is the
/// clock in milliseconds.
pub open spec fn action_planned(p0: PlayerView, l0: LibraryState, a: Action, now: u64, p1: PlayerView, l1: LibraryState, ts: Seq<Task>) -> bool {
    &&& match a {
        Action::EnterFolder => entered_folder(l0, l1, l0.selected_entry() matches Some(LibraryEntry::Folder { .. })),
        Action::GoParentFolder => went_to_parent(l0, l1, l0.current_folder is Some),
        _ => l1 == l0,
    }
    &&& player_planned(p0, l0, a, now, p1, ts)
}

/// What an action does to the player state, and the tasks it hands out; the
/// library `l` is read for the selected file.
pub open spec fn player_planned(p0: PlayerView, l0: LibraryState, a: Action, now: u64, p1: PlayerView, ts: Seq<Task>) -> bool {
    let dev = selected_device_of(p0);
    match a {
        Action::SeekBackward(secs) => match dev {
            None => p1 == p0 && ts.len() == 0,
            Some(d) => p1 == (PlayerView {
                position_last_update: None,
                pending_operation: Some("Seeking -"@ + decimal(secs as nat) + "s..."@),
                ..p0
            }) && only(ts, |t: Task| t matches Task::Send(DaemonCommand::Seek { device, position_secs }, ReplyRule::Done(m))
                && device@ == d && position_secs == seek_back_target(p0, secs) && m@ == "-"@ + decimal(secs as nat) + "s"@),
        },
        Action::SeekForward(secs) => match dev {
            None => p1 == p0 && ts.len() == 0,
            Some(d) => p1 == (PlayerView {
                position_last_update: None,
                pending_operation: Some("Seeking +"@ + decimal(secs as nat) + "s..."@),
                ..p0
            }) && only(ts, |t: Task| t matches Task::Send(DaemonCommand::Seek { device, position_secs }, ReplyRule::Done(m))
                && device@ == d && position_secs == seek_ahead_target(p0, secs) && m@ == "+"@ + decimal(secs as nat) + "s"@),
        },
        Action::PlayPause => match dev {
            None => p1 == p0 && ts.len() == 0,
            Some(d) => if p0.playback_state == "Playing"@ {
                p1 == (PlayerView { pending_operation: Some("Pausing..."@), ..after_save(p0, now) })
                    && saves_then(p0, d, ts, |t: Task| t matches Task::Send(DaemonCommand::Pause { device }, _)
                        && device@ == d && sends_done(t, "Paused"@))
            } else {
                p1 == (PlayerView { pending_operation: Some("Resuming..."@), ..p0 })
                    && only(ts, |t: Task| t matches Task::Send(DaemonCommand::Resume { device }, _)
                        && device@ == d && sends_done(t, "Playing"@))
            },
        },
        Action::PlayQueueItem => match queue_item_of(p0) {
            None => p1 == p0 && ts.len() == 0,
            Some(item) => match dev {
                None => p1 == no_device(p0) && ts.len() == 0,
                Some(d) => p1 == p0 && if item.3 {
                    only(ts, |t: Task| t matches Task::Send(DaemonCommand::PlayUrl { url, device }, _)
                        && url@ == item.2 && device@ == d && sends_done(t, "Playing URL: "@ + item.1))
                } else {
                    only(ts, |t: Task| t matches Task::Send(DaemonCommand::Push { file, device, port }, _)
                        && file@ == item.2 && device@ == d && port == 9000 && sends_done(t, "Playing: "@ + item.1))
                },
            },
        },
        Action::Stop => match dev {
            None => p1 == p0 && ts.len() == 0,
            Some(d) => p1 == after_save(p0, now)
                && saves_then(p0, d, ts, |t: Task| t matches Task::Send(DaemonCommand::Stop { device }, _)
                    && device@ == d && sends_done(t, "Stopped"@)),
        },
        Action::NextTrack => match dev {
            None => p1 == p0 && ts.len() == 0,
            Some(d) => p1 == p0 && only(ts, |t: Task| t matches Task::Send(DaemonCommand::Next { device }, _)
                && device@ == d && sends_done(t, "Next track"@)),
        },
        Action::PrevTrack => match dev {
            None => p1 == p0 && ts.len() == 0,
            Some(d) => p1 == p0 && only(ts, |t: Task| t matches Task::Send(DaemonCommand::Prev { device }, _)
                && device@ == d && sends_done(t, "Previous track"@)),
        },
        Action::VolumeUp => match dev {
            None => p1 == p0 && ts.len() == 0,
            Some(d) => p1 == p0 && only(ts, |t: Task| t matches Task::Send(DaemonCommand::AdjustVolume { device, delta }, ReplyRule::Volume(m))
                && device@ == d && delta == 5 && m@ == "Vol +"@),
        },
        Action::VolumeDown => match dev {
            None => p1 == p0 && ts.len() == 0,
            Some(d) => p1 == p0 && only(ts, |t: Task| t matches Task::Send(DaemonCommand::AdjustVolume { device, delta }, ReplyRule::Volume(m))
                && device@ == d && delta == -5 && m@ == "Vol -"@),
        },
        Action::ToggleMute => match dev {
            None => p1 == p0 && ts.len() == 0,
            Some(d) => p1 == p0 && only(ts, |t: Task| t matches Task::Send(DaemonCommand::Mute { device, mute }, _)
                && device@ == d && mute is None && sends_done(t, if p0.muted { "Unmuted"@ } else { "Muted"@ })),
        },
        Action::ToggleShuffle => match dev {
            None => p1 == p0 && ts.len() == 0,
            Some(d) => p1 == p0 && only(ts, |t: Task| t matches Task::Send(DaemonCommand::Shuffle { device, enabled }, _)
                && device@ == d && enabled == !p0.shuffle
                && sends_done(t, if !p0.shuffle { "Shuffle ON"@ } else { "Shuffle off"@ })),
        },
        Action::CycleRepeat => match dev {
            None => p1 == p0 && ts.len() == 0,
            Some(d) => p1 == p0 && only(ts, |t: Task| t matches Task::Send(DaemonCommand::Repeat { device, mode }, _)
                && device@ == d && mode@ == next_repeat(p0.repeat) && sends_done(t, "Repeat: "@ + next_repeat(p0.repeat))),
        },
        Action::RefreshRenderers => if p0.discovering {
            p1 == p0 && ts.len() == 0
        } else {
            p1 == (PlayerView { discovering: true, status_message: "Refreshing..."@, ..p0 })
                && only(ts, |t: Task| t matches Task::Send(DaemonCommand::Refresh { timeout_secs }, ReplyRule::Discovery)
                    && timeout_secs == 3)
        },
        Action::RefreshStatus => p1 == p0 && ts.len() == 0,
        Action::AddToQueue => if p0.pending_operation is Some {
            p1 == p0 && ts.len() == 0
        } else {
            match l0.selected_entry() {
                Some(LibraryEntry::File(f)) => match dev {
                    None => p1 == no_device(p0) && ts.len() == 0,
                    Some(d) => p1 == (PlayerView { pending_operation: Some("Adding "@ + f.filename@ + "..."@), ..p0 })
                        && only(ts, |t: Task| t matches Task::Send(
                            DaemonCommand::QueueAdd { source, title, content_type, subtitle_url, device, position },
                            ReplyRule::ThenListQueue { device: d2, message })
                            && source@ == f.path@ && title is None && content_type is None && subtitle_url is None
                            && device@ == d && position is None && d2@ == d && message@ == "Added: "@ + f.filename@),
                },
                _ => p1 == p0 && ts.len() == 0,
            }
        },
        Action::RemoveFromQueue => if p0.pending_operation is Some {
            p1 == p0 && ts.len() == 0
        } else {
            match queue_item_of(p0) {
                None => p1 == p0 && ts.len() == 0,
                Some(item) => match dev {
                    None => p1 == no_device(p0) && ts.len() == 0,
                    Some(d) => p1 == (PlayerView { pending_operation: Some("Removing "@ + item.1 + "..."@), ..p0 })
                        && only(ts, |t: Task| t matches Task::Send(DaemonCommand::QueueRemove { device, index },
                            ReplyRule::ThenListQueue { device: d2, message })
                            && device@ == d && index == p0.filtered_queue_indices[p0.selected_queue->Some_0 as int]
                            && d2@ == d && message@ == "Removed: "@ + item.1),
                },
            }
        },
        Action::AddUrlToQueue(url) => if p0.pending_operation is Some {
            p1 == p0 && ts.len() == 0
        } else {
            match dev {
                None => p1 == no_device(p0) && ts.len() == 0,
                Some(d) => p1 == (PlayerView { pending_operation: Some("Adding "@ + cut_end(url@, 40, 40) + "..."@), ..p0 })
                    && only(ts, |t: Task| t matches Task::Send(
                        DaemonCommand::QueueAdd { source, title, content_type, subtitle_url, device, position },
                        ReplyRule::ThenListQueue { device: d2, message })
                        && source@ == url@ && title is None && content_type is None && subtitle_url is None
                        && device@ == d && position is None && d2@ == d && message@ == "Added: "@ + cut_end(url@, 40, 40)),
            }
        },
        Action::ResumeFromHistory(uri) => match dev {
            None => p1 == no_device(p0) && ts.len() == 0,
            Some(d) => p1 == (PlayerView { pending_operation: Some("Resuming "@ + after_last_slash(uri@) + "..."@), ..p0 })
                && only(ts, |t: Task| t matches Task::Send(DaemonCommand::ResumeFrom { device, uri: u }, _)
                    && device@ == d && u@ == uri@ && sends_done(t, "Resumed: "@ + after_last_slash(uri@))),
        },
        Action::RefreshHistory => p1 == p0 && only(ts, |t: Task| t matches Task::Send(DaemonCommand::ListPositions, ReplyRule::History)),
        Action::DeviceChanged => match dev {
            None => p1 == p0 && ts.len() == 0,
            Some(d) => p1 == (PlayerView {
                queue_items: Seq::empty(),
                filtered_queue_indices: Seq::empty(),
                queue_current: None,
                playback_state: "Unknown"@,
                playback_position: 0,
                playback_duration: 0,
                current_uri: None,
                position_last_update: None,
                ..p0
            }) && ts.len() == 3
                && (ts[0] matches Task::Send(DaemonCommand::QueueList { device }, ReplyRule::QueueRefresh) && device@ == d)
                && (ts[1] matches Task::RefreshStatus(device) && device@ == d)
                && (ts[2] matches Task::Send(DaemonCommand::Subscribe { device }, ReplyRule::Subscribe(d2))
                    && device@ == d && d2@ == d),
        },
        Action::SetMediaDir(path) => p1 == (PlayerView { pending_operation: Some("Setting media directory..."@), ..p0 })
            && ts.len() == 2
            && (ts[0] matches Task::Send(DaemonCommand::SetMediaDir { path: x }, ReplyRule::MediaDir(y)) && x@ == path@ && y@ == path@)
            && (ts[1] matches Task::Send(DaemonCommand::ListMedia, ReplyRule::MediaCount)),
        Action::RefreshMediaLibrary => p1 == p0
            && only(ts, |t: Task| t matches Task::Send(DaemonCommand::ListMedia, ReplyRule::MediaCount)),
        Action::ToggleAutoRefresh => p1 == p0
            && only(ts, |t: Task| t matches Task::Send(DaemonCommand::SetAutoRefresh { enabled }, ReplyRule::AutoRefresh(e))
                && enabled == !p0.auto_refresh && e == !p0.auto_refresh),
        Action::EnterFolder => p1 == p0 && ts.len() == 0,
        Action::GoParentFolder => p1 == p0 && ts.len() == 0,
    }
}

fn one(t: Task) -> (r: Vec<Task>)
    ensures
        r@ == seq![t],
{
    let mut v: Vec<Task> = Vec::new();
    v.push(t);
    assert(v@ =~= seq![t]);
    v
}

fn done(m: &str) -> (r: ReplyRule)
    ensures
        r matches ReplyRule::Done(x) && x@ == m@,
{
    ReplyRule::Done(m.to_owned())
}

impl PlayerState {
    /// The selected renderer's name, as an owned string.
    fn device(&self) -> (r: Option<String>)
        ensures
            os(r) == selected_device_of(self@),
    {
        match self.selected_device() {
            Some(n) => Some(n.to_owned()),
            None => None,
        }
    }

    /// Save current playback position to history (only with a URI and at
    /// least 5 seconds played): the request to send, and the time noted.
    pub fn start_background_save_position(&mut self, device: &str, now: u64) -> (r: Option<Task>)
        ensures
            save_due(old(self)@) ==> final(self)@ == (PlayerView { last_position_save: Some(now), ..old(self)@ })
                && (r matches Some(Task::Send(DaemonCommand::SavePosition { device: d }, ReplyRule::Ignore)) && d@ == device@),
            !save_due(old(self)@) ==> final(self)@ == old(self)@ && r is None,
    {
        if self.current_uri.is_none() || self.playback_position < 5 {
            return None;
        }
        self.last_position_save = Some(now);
        Some(Task::Send(DaemonCommand::SavePosition { device: device.to_owned() }, ReplyRule::Ignore))
    }

    /// Start discovery in background, unless it is running.
    pub fn start_background_discovery(&mut self, timeout_secs: u64) -> (r: Option<Task>)
        ensures
            old(self)@.discovering ==> final(self)@ == old(self)@ && r is None,
            !old(self)@.discovering ==> final(self)@ == (PlayerView { discovering: true, status_message: "Refreshing..."@, ..old(self)@ })
                && (r matches Some(Task::Send(DaemonCommand::Refresh { timeout_secs: t }, ReplyRule::Discovery)) && t == timeout_secs),
    {
        if self.discovering {
            return None;
        }
        self.discovering = true;
        self.status_message = String::from_str("Refreshing...");
        Some(Task::Send(DaemonCommand::Refresh { timeout_secs }, ReplyRule::Discovery))
    }

    /// Start background status refresh
    pub fn start_background_status_refresh(&self, device: String) -> (r: Task)
        ensures
            r == Task::RefreshStatus(device),
    {
        Task::RefreshStatus(device)
    }

    /// Start background queue refresh
    pub fn start_background_queue_refresh(&self, device: String) -> (r: Task)
        ensures
            r == Task::Send(DaemonCommand::QueueList { device }, ReplyRule::QueueRefresh),
    {
        Task::Send(DaemonCommand::QueueList { device }, ReplyRule::QueueRefresh)
    }

    /// Start background daemon info refresh
    pub fn start_background_daemon_info(&self) -> (r: Task)
        ensures
            r == Task::Send(DaemonCommand::Info, ReplyRule::DaemonInfo),
    {
        Task::Send(DaemonCommand::Info, ReplyRule::DaemonInfo)
    }

    /// Poll for UPnP events
    pub fn start_background_event_poll(&self, device: Option<String>) -> (r: Task)
        ensures
            r == Task::Send(DaemonCommand::PollEvents { device }, ReplyRule::Events),
    {
        Task::Send(DaemonCommand::PollEvents { device }, ReplyRule::Events)
    }

    /// Subscribe to UPnP events for a device
    pub fn start_background_subscribe(&self, device: String) -> (r: Task)
        ensures
            r matches Task::Send(DaemonCommand::Subscribe { device: d }, ReplyRule::Subscribe(e)) && d@ == device@ && e@ == device@,
    {
        let copy = device.clone();
        Task::Send(DaemonCommand::Subscribe { device }, ReplyRule::Subscribe(copy))
    }

    /// Start background history refresh
    pub fn start_background_history_refresh(&self) -> (r: Task)
        ensures
            r == Task::Send(DaemonCommand::ListPositions, ReplyRule::History),
    {
        Task::Send(DaemonCommand::ListPositions, ReplyRule::History)
    }

    /// Start background media library refresh
    pub fn start_background_media_refresh(&self) -> (r: Task)
        ensures
            r == Task::Send(DaemonCommand::ListMedia, ReplyRule::MediaCount),
    {
        Task::Send(DaemonCommand::ListMedia, ReplyRule::MediaCount)
    }

    /// Toggle auto-refresh (file watching)
    pub fn start_background_toggle_auto_refresh(&self) -> (r: Task)
        ensures
            r == Task::Send(DaemonCommand::SetAutoRefresh { enabled: !self@.auto_refresh }, ReplyRule::AutoRefresh(!self@.auto_refresh)),
    {
        let new_state = !self.auto_refresh;
        Task::Send(DaemonCommand::SetAutoRefresh { enabled: new_state }, ReplyRule::AutoRefresh(new_state))
    }
}

impl PlayerState {
    fn seek_backward(&mut self, l: &LibraryState, secs: u64) -> (r: Vec<Task>)
        ensures
            player_planned(old(self)@, *l, Action::SeekBackward(secs), 0, final(self)@, r@),
    {
        proof {
            reveal_strlit("Seeking -");
            reveal_strlit("s...");
            reveal_strlit("-");
            reveal_strlit("s");
        }
        match self.device() {
            None => Vec::new(),
            Some(device) => {
                let target = self.playback_position.saturating_sub(secs);
                self.position_last_update = None;
                let mut pending = String::from_str("Seeking -");
                push_decimal(&mut pending, secs);
                push_str(&mut pending, "s...");
                self.pending_operation = Some(pending);
                let mut m = String::from_str("-");
                push_decimal(&mut m, secs);
                push_str(&mut m, "s");
                one(Task::Send(DaemonCommand::Seek { device, position_secs: target }, ReplyRule::Done(m)))
            },
        }
    }

    fn seek_forward(&mut self, l: &LibraryState, secs: u64) -> (r: Vec<Task>)
        ensures
            player_planned(old(self)@, *l, Action::SeekForward(secs), 0, final(self)@, r@),
    {
        proof {
            reveal_strlit("Seeking +");
            reveal_strlit("s...");
            reveal_strlit("+");
            reveal_strlit("s");
        }
        match self.device() {
            None => Vec::new(),
            Some(device) => {
                let ahead = self.playback_position.saturating_add(secs);
                let target = if self.playback_duration > 0 && ahead > self.playback_duration - 1 {
                    self.playback_duration - 1
                } else {
                    ahead
                };
                self.position_last_update = None;
                let mut pending = String::from_str("Seeking +");
                push_decimal(&mut pending, secs);
                push_str(&mut pending, "s...");
                self.pending_operation = Some(pending);
                let mut m = String::from_str("+");
                push_decimal(&mut m, secs);
                push_str(&mut m, "s");
                one(Task::Send(DaemonCommand::Seek { device, position_secs: target }, ReplyRule::Done(m)))
            },
        }
    }

    fn play_pause(&mut self, l: &LibraryState, now: u64) -> (r: Vec<Task>)
        ensures
            player_planned(old(self)@, *l, Action::PlayPause, now, final(self)@, r@),
    {
        match self.device() {
            None => Vec::new(),
            Some(device) => {
                let is_playing = crate::types::str_eq(self.playback_state.as_str(), "Playing");
                let mut tasks: Vec<Task> = Vec::new();
                if is_playing {
                    if let Some(t) = self.start_background_save_position(device.as_str(), now) {
                        tasks.push(t);
                    }
                    self.pending_operation = Some(String::from_str("Pausing..."));
                    tasks.push(Task::Send(DaemonCommand::Pause { device }, done("Paused")));
                } else {
                    self.pending_operation = Some(String::from_str("Resuming..."));
                    tasks.push(Task::Send(DaemonCommand::Resume { device }, done("Playing")));
                }
                tasks
            },
        }
    }

    fn stop(&mut self, l: &LibraryState, now: u64) -> (r: Vec<Task>)
        ensures
            player_planned(old(self)@, *l, Action::Stop, now, final(self)@, r@),
    {
        match self.device() {
            None => Vec::new(),
            Some(device) => {
                let mut tasks: Vec<Task> = Vec::new();
                if let Some(t) = self.start_background_save_position(device.as_str(), now) {
                    tasks.push(t);
                }
                tasks.push(Task::Send(DaemonCommand::Stop { device }, done("Stopped")));
                tasks
            },
        }
    }

    fn play_queue_item(&mut self, l: &LibraryState) -> (r: Vec<Task>)
        ensures
            player_planned(old(self)@, *l, Action::PlayQueueItem, 0, final(self)@, r@),
    {
        proof {
            reveal_strlit("Playing URL: ");
            reveal_strlit("Playing: ");
            reveal_strlit("No device selected");
        }
        let k = match self.selected_actual_queue_index() {
            Some(k) => k,
            None => {
                return Vec::new();
            },
        };
        if k >= self.queue_items.len() {
            return Vec::new();
        }
        let ghost item = self@.queue_items[k as int];
        let title = self.queue_items[k].title.clone();
        let source = self.queue_items[k].source.clone();
        let is_url = self.queue_items[k].is_url;
        assert(title@ == item.1 && source@ == item.2 && is_url == item.3);
        match self.device() {
            None => {
                self.status_message = String::from_str("No device selected");
                Vec::new()
            },
            Some(device) => {
                if is_url {
                    let mut m = String::from_str("Playing URL: ");
                    push_str(&mut m, title.as_str());
                    one(Task::Send(DaemonCommand::PlayUrl { url: source, device }, ReplyRule::Done(m)))
                } else {
                    let mut m = String::from_str("Playing: ");
                    push_str(&mut m, title.as_str());
                    one(Task::Send(DaemonCommand::Push { file: source, device, port: 9000 }, ReplyRule::Done(m)))
                }
            },
        }
    }
}

impl PlayerState {
    /// A request to the selected renderer that needs no change of state.
    fn device_request(&mut self, l: &LibraryState, action: &Action) -> (r: Vec<Task>)
        requires
            action is NextTrack || action is PrevTrack || action is VolumeUp || action is VolumeDown
                || action is ToggleMute || action is ToggleShuffle || action is CycleRepeat,
        ensures
            player_planned(old(self)@, *l, *action, 0, final(self)@, r@),
    {
        proof {
            reveal_strlit("Vol +");
            reveal_strlit("Vol -");
            reveal_strlit("Unmuted");
            reveal_strlit("Muted");
            reveal_strlit("Shuffle ON");
            reveal_strlit("Shuffle off");
            reveal_strlit("none");
            reveal_strlit("all");
            reveal_strlit("one");
            reveal_strlit("Repeat: ");
        }
        let device = match self.device() {
            None => {
                return Vec::new();
            },
            Some(d) => d,
        };
        match action {
            Action::NextTrack => one(Task::Send(DaemonCommand::Next { device }, done("Next track"))),
            Action::PrevTrack => one(Task::Send(DaemonCommand::Prev { device }, done("Previous track"))),
            Action::VolumeUp => one(Task::Send(DaemonCommand::AdjustVolume { device, delta: 5 }, ReplyRule::Volume(String::from_str("Vol +")))),
            Action::VolumeDown => one(Task::Send(DaemonCommand::AdjustVolume { device, delta: -5 }, ReplyRule::Volume(String::from_str("Vol -")))),
            Action::ToggleMute => {
                let m = if self.muted { "Unmuted" } else { "Muted" };
                one(Task::Send(DaemonCommand::Mute { device, mute: None }, done(m)))
            },
            Action::ToggleShuffle => {
                let enabled = !self.shuffle;
                let m = if enabled { "Shuffle ON" } else { "Shuffle off" };
                one(Task::Send(DaemonCommand::Shuffle { device, enabled }, done(m)))
            },
            _ => {
                let mode: &str = if crate::types::str_eq(self.repeat.as_str(), "none") {
                    "all"
                } else if crate::types::str_eq(self.repeat.as_str(), "all") {
                    "one"
                } else {
                    "none"
                };
                let mut m = String::from_str("Repeat: ");
                push_str(&mut m, mode);
                one(Task::Send(DaemonCommand::Repeat { device, mode: mode.to_owned() }, ReplyRule::Done(m)))
            },
        }
    }

    fn add_to_queue(&mut self, l: &LibraryState) -> (r: Vec<Task>)
        ensures
            player_planned(old(self)@, *l, Action::AddToQueue, 0, final(self)@, r@),
    {
        proof {
            reveal_strlit("Adding ");
            reveal_strlit("...");
            reveal_strlit("Added: ");
            reveal_strlit("No device selected");
        }
        if self.pending_operation.is_some() {
            return Vec::new();
        }
        let (filename, path) = match l.selected_file() {
            Some(f) => (f.filename.clone(), f.path.clone()),
            None => {
                return Vec::new();
            },
        };
        match self.device() {
            None => {
                self.status_message = String::from_str("No device selected");
                Vec::new()
            },
            Some(device) => {
                let mut pending = String::from_str("Adding ");
                push_str(&mut pending, filename.as_str());
                push_str(&mut pending, "...");
                self.pending_operation = Some(pending);
                let mut message = String::from_str("Added: ");
                push_str(&mut message, filename.as_str());
                let d2 = device.clone();
                one(Task::Send(
                    DaemonCommand::QueueAdd { source: path, title: None, content_type: None, subtitle_url: None, device, position: None },
                    ReplyRule::ThenListQueue { device: d2, message },
                ))
            },
        }
    }

    fn remove_from_queue(&mut self, l: &LibraryState) -> (r: Vec<Task>)
        ensures
            player_planned(old(self)@, *l, Action::RemoveFromQueue, 0, final(self)@, r@),
    {
        proof {
            reveal_strlit("Removing ");
            reveal_strlit("...");
            reveal_strlit("Removed: ");
            reveal_strlit("No device selected");
        }
        if self.pending_operation.is_some() {
            return Vec::new();
        }
        let k = match self.selected_actual_queue_index() {
            Some(k) => k,
            None => {
                return Vec::new();
            },
        };
        if k >= self.queue_items.len() {
            return Vec::new();
        }
        let title = self.queue_items[k].title.clone();
        match self.device() {
            None => {
                self.status_message = String::from_str("No device selected");
                Vec::new()
            },
            Some(device) => {
                let mut pending = String::from_str("Removing ");
                push_str(&mut pending, title.as_str());
                push_str(&mut pending, "...");
                self.pending_operation = Some(pending);
                let mut message = String::from_str("Removed: ");
                push_str(&mut message, title.as_str());
                let d2 = device.clone();
                one(Task::Send(DaemonCommand::QueueRemove { device, index: k }, ReplyRule::ThenListQueue { device: d2, message }))
            },
        }
    }

    fn add_url_to_queue(&mut self, l: &LibraryState, url: String) -> (r: Vec<Task>)
        ensures
            player_planned(old(self)@, *l, Action::AddUrlToQueue(url), 0, final(self)@, r@),
    {
        proof {
            reveal_strlit("Adding ");
            reveal_strlit("...");
            reveal_strlit("Added: ");
            reveal_strlit("No device selected");
        }
        if self.pending_operation.is_some() {
            return Vec::new();
        }
        match self.device() {
            None => {
                self.status_message = String::from_str("No device selected");
                Vec::new()
            },
            Some(device) => {
                let short = cut_end_exec(url.as_str(), 40, 40);
                let mut pending = String::from_str("Adding ");
                push_str(&mut pending, short.as_str());
                push_str(&mut pending, "...");
                self.pending_operation = Some(pending);
                let mut message = String::from_str("Added: ");
                push_str(&mut message, short.as_str());
                let d2 = device.clone();
                let t = Task::Send(
                    DaemonCommand::QueueAdd { source: url, title: None, content_type: None, subtitle_url: None, device, position: None },
                    ReplyRule::ThenListQueue { device: d2, message },
                );
                one(t)
            },
        }
    }

    fn resume_from_history(&mut self, l: &LibraryState, uri: String) -> (r: Vec<Task>)
        ensures
            player_planned(old(self)@, *l, Action::ResumeFromHistory(uri), 0, final(self)@, r@),
    {
        proof {
            reveal_strlit("Resuming ");
            reveal_strlit("...");
            reveal_strlit("Resumed: ");
            reveal_strlit("No device selected");
        }
        match self.device() {
            None => {
                self.status_message = String::from_str("No device selected");
                Vec::new()
            },
            Some(device) => {
                let short = last_uri_piece(uri.as_str());
                let mut pending = String::from_str("Resuming ");
                push_str(&mut pending, short.as_str());
                push_str(&mut pending, "...");
                self.pending_operation = Some(pending);
                let mut message = String::from_str("Resumed: ");
                push_str(&mut message, short.as_str());
                one(Task::Send(DaemonCommand::ResumeFrom { device, uri }, ReplyRule::Done(message)))
            },
        }
    }

    fn device_changed(&mut self, l: &LibraryState) -> (r: Vec<Task>)
        ensures
            player_planned(old(self)@, *l, Action::DeviceChanged, 0, final(self)@, r@),
    {
        match self.device() {
            None => Vec::new(),
            Some(device) => {
                self.queue_items = Vec::new();
                self.filtered_queue_indices = Vec::new();
                self.queue_current = None;
                self.playback_state = String::from_str("Unknown");
                self.playback_position = 0;
                self.playback_duration = 0;
                self.current_uri = None;
                self.position_last_update = None;
                assert(self@.queue_items =~= Seq::<QueueView>::empty());
                assert(self@.filtered_queue_indices =~= Seq::<usize>::empty());
                let mut tasks: Vec<Task> = Vec::new();
                tasks.push(self.start_background_queue_refresh(device.clone()));
                tasks.push(self.start_background_status_refresh(device.clone()));
                tasks.push(self.start_background_subscribe(device));
                tasks
            },
        }
    }

    fn set_media_dir(&mut self, l: &LibraryState, path: String) -> (r: Vec<Task>)
        ensures
            player_planned(old(self)@, *l, Action::SetMediaDir(path), 0, final(self)@, r@),
    {
        self.pending_operation = Some(String::from_str("Setting media directory..."));
        let mut tasks: Vec<Task> = Vec::new();
        let copy = path.clone();
        tasks.push(Task::Send(DaemonCommand::SetMediaDir { path }, ReplyRule::MediaDir(copy)));
        tasks.push(self.start_background_media_refresh());
        tasks
    }
}

/// Where an added URL is shortened for the pending message, its 40th byte
/// ends a character (a cut inside one panics).
pub open spec fn url_cut_on_boundary(p: PlayerView, a: Action) -> bool {
    match a {
        Action::AddUrlToQueue(u) => p.pending_operation is None && selected_device_of(p) is Some
            ==> cut_end_ok(u@, 40, 40),
        _ => true,
    }
}

/// Process an action: change the shown state and the library view, and
/// hand out the requests to send (`now` is the clock in milliseconds).
pub fn process_action(player: &mut PlayerState, library: &mut LibraryState, action: Action, now: u64) -> (r: Vec<Task>)
    requires
        old(library).wf(),
        url_cut_on_boundary(old(player)@, action),
    ensures
        action_planned(old(player)@, *old(library), action, now, final(player)@, *final(library), r@),
{
    match action {
        Action::SeekBackward(secs) => player.seek_backward(library, secs),
        Action::SeekForward(secs) => player.seek_forward(library, secs),
        Action::PlayPause => player.play_pause(library, now),
        Action::PlayQueueItem => player.play_queue_item(library),
        Action::Stop => player.stop(library, now),
        Action::NextTrack | Action::PrevTrack | Action::VolumeUp | Action::VolumeDown | Action::ToggleMute
        | Action::ToggleShuffle | Action::CycleRepeat => player.device_request(library, &action),
        Action::RefreshRenderers => match player.start_background_discovery(3) {
            Some(t) => one(t),
            None => Vec::new(),
        },
        Action::RefreshStatus => Vec::new(),
        Action::AddToQueue => player.add_to_queue(library),
        Action::RemoveFromQueue => player.remove_from_queue(library),
        Action::AddUrlToQueue(url) => player.add_url_to_queue(library, url),
        Action::EnterFolder => {
            library.enter_selected_folder();
            Vec::new()
        },
        Action::GoParentFolder => {
            library.go_parent_folder();
            Vec::new()
        },
        Action::ResumeFromHistory(uri) => player.resume_from_history(library, uri),
        Action::RefreshHistory => one(player.start_background_history_refresh()),
        Action::DeviceChanged => player.device_changed(library),
        Action::SetMediaDir(path) => player.set_media_dir(library, path),
        Action::RefreshMediaLibrary => one(player.start_background_media_refresh()),
        Action::ToggleAutoRefresh => one(player.start_background_toggle_auto_refresh()),
    }
}

/// While an operation is pending, no queue operation starts: adding a file
/// or a URL and removing an item change nothing and send nothing.
pub proof fn no_queue_work_while_pending(p0: PlayerView, l0: LibraryState, a: Action, now: u64, p1: PlayerView, l1: LibraryState, ts: Seq<Task>)
    requires
        a is AddToQueue || a is RemoveFromQueue || a is AddUrlToQueue,
        p0.pending_operation is Some,
        action_planned(p0, l0, a, now, p1, l1, ts),
    ensures
        p1 == p0,
        l1 == l0,
        ts.len() == 0,
{
}

/// Playback commands update nothing before the device confirms them: the
/// shown state, volume, mute, shuffle and repeat stay as they were.
pub proof fn no_optimistic_update(p0: PlayerView, l0: LibraryState, a: Action, now: u64, p1: PlayerView, l1: LibraryState, ts: Seq<Task>)
    requires
        a is PlayPause || a is Stop || a is NextTrack || a is PrevTrack || a is VolumeUp || a is VolumeDown
            || a is ToggleMute || a is ToggleShuffle || a is CycleRepeat,
        action_planned(p0, l0, a, now, p1, l1, ts),
    ensures
        p1.playback_state == p0.playback_state,
        p1.volume == p0.volume,
        p1.muted == p0.muted,
        p1.shuffle == p0.shuffle,
        p1.repeat == p0.repeat,
{
}

/// Switching renderers keeps the shown volume and mute (the new device's
/// status replaces them) and forgets the old device's queue and playback.
pub proof fn device_change_keeps_volume(p0: PlayerView, l0: LibraryState, now: u64, p1: PlayerView, l1: LibraryState, ts: Seq<Task>)
    requires
        selected_device_of(p0) is Some,
        action_planned(p0, l0, Action::DeviceChanged, now, p1, l1, ts),
    ensures
        p1.volume == p0.volume,
        p1.muted == p0.muted,
        p1.queue_items.len() == 0,
        p1.playback_position == 0,
        p1.current_uri is None,
{
}

/// Repeat cycles through none, all and one: three steps return to the mode
/// started from.
pub proof fn repeat_cycle_returns(mode: Seq<char>)
    requires
        mode == "none"@ || mode == "all"@ || mode == "one"@,
    ensures
        next_repeat(next_repeat(next_repeat(mode))) == mode,
{
    reveal_strlit("none");
    reveal_strlit("all");
    reveal_strlit("one");
    assert("none"@.len() != "all"@.len() && "none"@.len() != "one"@.len());
    assert("all"@[0] != "one"@[0]);
}

/// The state after the reply to the request for the cached renderers.
pub open spec fn cached_renderers_applied(p: PlayerView, reply: Result<Response, String>) -> PlayerView {
    match reply {
        Ok(Response::Success { data: Some(ResponseData::Renderers { renderers }) }) => PlayerView {
            renderers: renderers@,
            status_message: if renderers@.len() == 0 {
                "No cached devices"@
            } else {
                decimal(renderers@.len()) + " device(s) (cached)"@
            },
            ..p
        },
        _ => PlayerView { status_message: "No cached devices"@, ..p },
    }
}

/// The state after the reply to the daemon-info request.
pub open spec fn daemon_info_applied(p: PlayerView, reply: Result<Response, String>) -> PlayerView {
    match reply {
        Ok(Response::Success { data: Some(ResponseData::DaemonInfo { uptime_secs, active_streams, .. }) }) =>
            PlayerView { daemon_uptime: uptime_secs, daemon_streams: active_streams, ..p },
        _ => p,
    }
}

/// The state after the reply to the request for the saved positions.
pub open spec fn history_applied(p0: PlayerView, reply: Result<Response, String>, p1: PlayerView) -> bool {
    match reply {
        Ok(Response::Success { data: Some(ResponseData::Positions { positions }) }) =>
            history_of(positions@, p1.history_items)
                && p1 == (PlayerView {
                    history_items: p1.history_items,
                    selected_history: reset_selection(p0.selected_history, positions@.len()),
                    ..p0
                }),
        Ok(Response::Failure { message }) => p1 == (PlayerView { status_message: "History: "@ + message@, ..p0 }),
        _ => p1 == p0,
    }
}

/// The state after the reply to the request for the device's queue: the
/// queue, its position and modes, filtered by the search, the selection kept
/// in range.
pub open spec fn queue_applied(p: PlayerView, reply: Result<Response, String>) -> PlayerView {
    match reply {
        Ok(Response::Success { data: Some(ResponseData::Queue { items, current_index, shuffle, repeat }) }) => {
            let f = filter_of(queue_views_of(items@), p.search_query);
            PlayerView {
                queue_items: queue_views_of(items@),
                queue_current: current_index,
                shuffle,
                repeat: repeat@,
                filtered_queue_indices: f,
                selected_queue: clamped(p.selected_queue, f.len() as usize),
                ..p
            }
        },
        _ => p,
    }
}

impl PlayerState {
    /// Load cached renderers: apply the reply to `ListCached`.
    pub fn refresh_renderers_cached(&mut self, reply: Result<Response, String>)
        ensures
            final(self)@ == cached_renderers_applied(old(self)@, reply),
    {
        proof {
            reveal_strlit("No cached devices");
            reveal_strlit(" device(s) (cached)");
        }
        match reply {
            Ok(Response::Success { data: Some(ResponseData::Renderers { renderers }) }) => {
                self.renderers = renderers;
                if self.renderers.len() == 0 {
                    self.status_message = String::from_str("No cached devices");
                } else {
                    let mut m = String::new();
                    push_decimal(&mut m, self.renderers.len() as u64);
                    push_str(&mut m, " device(s) (cached)");
                    self.status_message = m;
                }
            },
            _ => {
                self.status_message = String::from_str("No cached devices");
            },
        }
    }

    /// Refresh daemon info: apply the reply to `Info`.
    pub fn refresh_daemon_info(&mut self, reply: Result<Response, String>)
        ensures
            final(self)@ == daemon_info_applied(old(self)@, reply),
    {
        if let Ok(Response::Success { data: Some(ResponseData::DaemonInfo { uptime_secs, active_streams, .. }) }) = reply {
            self.daemon_uptime = uptime_secs;
            self.daemon_streams = active_streams;
        }
    }

    /// Load watch history: apply the reply to `ListPositions`.
    pub fn refresh_history(&mut self, reply: Result<Response, String>)
        ensures
            history_applied(old(self)@, reply, final(self)@),
    {
        proof {
            reveal_strlit("History: ");
        }
        match reply {
            Ok(Response::Success { data: Some(ResponseData::Positions { positions }) }) => {
                self.history_items = history_items(positions);
                let len = self.history_items.len();
                match self.selected_history {
                    Some(i) => {
                        if i >= len {
                            self.selected_history = if len == 0 { None } else { Some(0) };
                        }
                    },
                    None => {
                        if len > 0 {
                            self.selected_history = Some(0);
                        }
                    },
                }
            },
            Ok(Response::Failure { message }) => {
                let mut m = String::from_str("History: ");
                push_str(&mut m, message.as_str());
                self.status_message = m;
            },
            _ => {},
        }
    }

    /// The request for the selected device's queue, where one is selected.
    pub fn refresh_queue_request(&self) -> (r: Option<DaemonCommand>)
        ensures
            match selected_device_of(self@) {
                Some(d) => r matches Some(DaemonCommand::QueueList { device }) && device@ == d,
                None => r is None,
            },
    {
        match self.device() {
            Some(device) => Some(DaemonCommand::QueueList { device }),
            None => None,
        }
    }

    /// Load queue for the selected device: apply the reply to `QueueList`.
    pub fn refresh_queue(&mut self, reply: Result<Response, String>)
        ensures
            final(self)@ == queue_applied(old(self)@, reply),
    {
        if let Ok(Response::Success { data: Some(ResponseData::Queue { items, current_index, shuffle, repeat }) }) = reply {
            self.show_queue_items(items);
            self.queue_current = current_index;
            self.shuffle = shuffle;
            self.repeat = repeat;
            self.selected_queue = clamp_queue_selection(self.selected_queue, self.filtered_queue_indices.len());
        }
    }
}

/// Load media files from the server library: apply the reply to `ListMedia`
/// (with the top-level folder of each file, `roots`).
pub fn refresh_media_files(player: &mut PlayerState, library: &mut LibraryState, reply: Result<Response, String>, roots: Vec<Option<String>>)
    requires
        old(library).wf(),
        reply matches Ok(Response::Success { data: Some(ResponseData::MediaFiles { files }) }) ==> roots@.len() == files@.len(),
    ensures
        final(library).wf(),
        match reply {
            Ok(Response::Success { data: Some(ResponseData::MediaFiles { files }) }) =>
                final(player)@ == old(player)@ && final(library).media_files@ == files@ && final(library).roots@ == roots@
                    && final(library).current_folder == old(library).current_folder && final(library).shows_current()
                    && final(library).selected_library == reset_selection(old(library).selected_library, final(library).library_entries@.len()),
            Ok(Response::Failure { message }) => final(player)@ == (PlayerView { status_message: "Library: "@ + message@, ..old(player)@ })
                && *final(library) == *old(library),
            _ => final(player)@ == old(player)@ && *final(library) == *old(library),
        },
{
    proof {
        reveal_strlit("Library: ");
    }
    match reply {
        Ok(Response::Success { data: Some(ResponseData::MediaFiles { files }) }) => {
            library.set_media_files(files, roots);
        },
        Ok(Response::Failure { message }) => {
            let mut m = String::from_str("Library: ");
            push_str(&mut m, message.as_str());
            player.status_message = m;
        },
        _ => {},
    }
}

} // verus!
