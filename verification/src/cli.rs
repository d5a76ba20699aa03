//! The command line: its options and commands, and how each command is run.

use vstd::prelude::*;
use crate::text::{decimal, push_decimal, push_str};
use crate::types::{opt_str_view, Renderer};

verus! {

/// Command line options
#[derive(Debug)]
pub struct Cli {
    /// Enable verbose logging
    pub verbose: bool,
    /// Use daemon mode (connect to running daemon)
    pub daemon: bool,
    /// Socket path for daemon connection
    pub socket: String,
    /// Config file path (default: platform-specific)
    pub config: Option<String>,
    pub command: Commands,
}

/// The commands of the command line
#[derive(Debug)]
#[allow(inconsistent_fields)]
pub enum Commands {
    /// Start the daemon (background process)
    StartDaemon {
        foreground: bool,
        port: u16,
        serve_dir: Option<Vec<String>>,
        serve_port: u16,
        serve_name: Option<String>,
        watch: bool,
    },
    /// Stop the running daemon
    StopDaemon,
    /// Check daemon status
    PingDaemon,
    /// Start the media server (standalone mode)
    Serve { dir: Vec<String>, port: u16, name: Option<String>, watch: bool },
    /// List available renderers on the network
    List { timeout: u64 },
    /// Push a file to a renderer
    Push { file: String, device: String, port: u16 },
    /// Play a URL on a renderer
    Play { url: String, device: String },
    /// Pause playback on a renderer
    Pause { device: String },
    /// Resume playback on a renderer
    Resume { device: String },
    /// Stop playback on a renderer
    Stop { device: String },
    /// Wake a device using Wake-on-LAN
    Wake { device: String, mac: Option<String> },
    /// Seek to a position (format: HH:MM:SS or seconds)
    Seek { position: String, device: String },
    /// Get current playback status
    Status { device: String },
    /// Set or get volume level (0-100)
    Volume { level: Option<u8>, device: String },
    /// Toggle or set mute
    Mute { state: Option<String>, device: String },
    /// Add item to playback queue
    QueueAdd {
        source: String,
        title: Option<String>,
        content_type: Option<String>,
        subtitle_url: Option<String>,
        device: String,
        position: Option<usize>,
    },
    /// Remove item from queue
    QueueRemove { index: usize, device: String },
    /// Clear all items from queue
    QueueClear { device: String },
    /// List queue items
    QueueList { device: String },
    /// Play next item in queue
    Next { device: String },
    /// Play previous item in queue
    Prev { device: String },
    /// Set shuffle mode
    Shuffle { state: String, device: String },
    /// Set repeat mode
    Repeat { mode: String, device: String },
    /// Interactive TUI mode (requires running daemon)
    Tui,
    /// Save current playback position (for resume later)
    SavePosition { device: String },
    /// List all saved positions
    ListPositions,
    /// Resume playback from saved position
    ResumeFrom { url: String, device: String },
    /// Clear saved position for a URL
    ClearPosition { url: String },
    /// Subscribe to UPnP events for a device
    Subscribe { device: String },
    /// Unsubscribe from UPnP events for a device
    Unsubscribe { device: String },
    /// Poll for pending UPnP events
    PollEvents { device: Option<String> },
    /// List media files from server library
    ListMedia,
    /// Set media directory (clears existing files and scans new directory)
    SetMediaDir { path: String },
    /// Add media directory (keeps existing files)
    AddMediaDir { path: String },
    /// Remove media directory
    RemoveMediaDir { path: String },
    /// Clear all media files
    ClearMedia,
    /// Set auto-refresh (file watching) on/off
    AutoRefresh { state: Option<String> },
}

/// How a command is run.
#[derive(Debug, Clone, Copy, PartialEq, Eq, Structural)]
pub enum Route {
    /// A command about the daemon itself (or the TUI), run directly.
    DaemonControl,
    /// Sent to the running daemon.
    ViaDaemon,
    /// Run on its own.
    Direct,
    /// Refused: it needs the daemon, and daemon mode was not asked for.
    NeedsDaemon,
}

/// Commands that only the daemon can run.
pub open spec fn daemon_only(c: Commands) -> bool {
    match c {
        Commands::QueueAdd { .. } | Commands::QueueRemove { .. } | Commands::QueueClear { .. }
        | Commands::QueueList { .. } | Commands::Next { .. } | Commands::Prev { .. } | Commands::Shuffle { .. }
        | Commands::Repeat { .. } | Commands::SavePosition { .. } | Commands::ListPositions
        | Commands::ResumeFrom { .. } | Commands::ClearPosition { .. } | Commands::Subscribe { .. }
        | Commands::Unsubscribe { .. } | Commands::PollEvents { .. } | Commands::ListMedia
        | Commands::SetMediaDir { .. } | Commands::AddMediaDir { .. } | Commands::RemoveMediaDir { .. }
        | Commands::ClearMedia | Commands::AutoRefresh { .. } => true,
        _ => false,
    }
}

/// Commands about the daemon itself, and the TUI.
pub open spec fn daemon_control(c: Commands) -> bool {
    match c {
        Commands::StartDaemon { .. } | Commands::StopDaemon | Commands::PingDaemon | Commands::Tui => true,
        _ => false,
    }
}

/// How a command is run: daemon commands directly; with `--daemon` through
/// the daemon; otherwise on its own, unless only the daemon can run it.
pub open spec fn route_of(c: Commands, daemon: bool) -> Route {
    if daemon_control(c) {
        Route::DaemonControl
    } else if daemon {
        Route::ViaDaemon
    } else if daemon_only(c) {
        Route::NeedsDaemon
    } else {
        Route::Direct
    }
}

pub fn command_route(command: &Commands, daemon: bool) -> (r: Route)
    ensures
        r == route_of(*command, daemon),
{
    match command {
        Commands::StartDaemon { .. } | Commands::StopDaemon | Commands::PingDaemon | Commands::Tui => {
            return Route::DaemonControl;
        },
        _ => {},
    }
    if daemon {
        return Route::ViaDaemon;
    }
    match command {
        Commands::QueueAdd { .. } | Commands::QueueRemove { .. } | Commands::QueueClear { .. }
        | Commands::QueueList { .. } | Commands::Next { .. } | Commands::Prev { .. } | Commands::Shuffle { .. }
        | Commands::Repeat { .. } | Commands::SavePosition { .. } | Commands::ListPositions
        | Commands::ResumeFrom { .. } | Commands::ClearPosition { .. } | Commands::Subscribe { .. }
        | Commands::Unsubscribe { .. } | Commands::PollEvents { .. } | Commands::ListMedia
        | Commands::SetMediaDir { .. } | Commands::AddMediaDir { .. } | Commands::RemoveMediaDir { .. }
        | Commands::ClearMedia | Commands::AutoRefresh { .. } => Route::NeedsDaemon,
        _ => Route::Direct,
    }
}

/// The error shown for a command that needs the daemon.
pub fn needs_daemon_message() -> (r: &'static str)
    ensures
        r@ == "This command requires daemon mode. Start the daemon first:\nflingdlna daemon --foreground\nThen use --daemon flag: flingdlna --daemon <command>"@,
{
    "This command requires daemon mode. Start the daemon first:\nflingdlna daemon --foreground\nThen use --daemon flag: flingdlna --daemon <command>"
}

/// The lines the `list` command prints for one renderer.
pub open spec fn renderer_listing(r: Renderer) -> Seq<char> {
    "  "@ + r.friendly_name@ + " \n"@ + "    Location: "@ + r.location@ + "\n"@
        + (match opt_str_view(r.manufacturer) { Some(m) => "    Manufacturer: "@ + m + "\n"@, None => Seq::empty() })
        + (match opt_str_view(r.model_name) { Some(m) => "    Model: "@ + m + "\n"@, None => Seq::empty() }) + "\n"@
}

/// The listings of the renderers, in order.
pub open spec fn renderer_listings(rs: Seq<Renderer>) -> Seq<char>
    decreases rs.len(),
{
    if rs.len() == 0 { Seq::empty() } else { renderer_listings(rs.drop_last()) + renderer_listing(rs.last()) }
}

/// What the `list` command prints once discovery is done.
pub open spec fn renderer_list_of(rs: Seq<Renderer>) -> Seq<char> {
    if rs.len() == 0 {
        "No renderers found.\n"@
    } else {
        "\nFound "@ + decimal(rs.len()) + " renderer(s):\n\n"@ + renderer_listings(rs)
    }
}

fn push_renderer_listing(r: &mut String, x: &Renderer)
    ensures
        final(r)@ == old(r)@ + renderer_listing(*x),
{
    proof {
        reveal_strlit("  ");
        reveal_strlit(" \n");
        reveal_strlit("    Location: ");
        reveal_strlit("\n");
        reveal_strlit("    Manufacturer: ");
        reveal_strlit("    Model: ");
    }
    let ghost mv = opt_str_view(x.manufacturer);
    let ghost dv = opt_str_view(x.model_name);
    let mut t = String::new();
    push_str(&mut t, "  ");
    push_str(&mut t, x.friendly_name.as_str());
    push_str(&mut t, " \n");
    push_str(&mut t, "    Location: ");
    push_str(&mut t, x.location.as_str());
    push_str(&mut t, "\n");
    let mut u = String::new();
    if let Some(m) = &x.manufacturer {
        push_str(&mut u, "    Manufacturer: ");
        push_str(&mut u, m.as_str());
        push_str(&mut u, "\n");
    }
    assert(u@ =~= (match mv { Some(m) => "    Manufacturer: "@ + m + "\n"@, None => Seq::<char>::empty() }));
    let mut w = String::new();
    if let Some(m) = &x.model_name {
        push_str(&mut w, "    Model: ");
        push_str(&mut w, m.as_str());
        push_str(&mut w, "\n");
    }
    assert(w@ =~= (match dv { Some(m) => "    Model: "@ + m + "\n"@, None => Seq::<char>::empty() }));
    push_str(r, t.as_str());
    push_str(r, u.as_str());
    push_str(r, w.as_str());
    push_str(r, "\n");
    assert(final(r)@ =~= old(r)@ + renderer_listing(*x));
}

/// The text the `list` command prints for the renderers found.
pub fn renderer_list_text(renderers: &Vec<Renderer>) -> (r: String)
    ensures
        r@ == renderer_list_of(renderers@),
{
    proof {
        reveal_strlit("No renderers found.\n");
        reveal_strlit("\nFound ");
        reveal_strlit(" renderer(s):\n\n");
    }
    let mut r = String::new();
    if renderers.len() == 0 {
        push_str(&mut r, "No renderers found.\n");
        return r;
    }
    push_str(&mut r, "\nFound ");
    push_decimal(&mut r, renderers.len() as u64);
    push_str(&mut r, " renderer(s):\n\n");
    let ghost head = r@;
    let mut i: usize = 0;
    assert(renderers@.take(0) =~= Seq::<Renderer>::empty());
    assert(r@ =~= head + renderer_listings(renderers@.take(0)));
    while i < renderers.len()
        invariant
            i <= renderers@.len(),
            r@ == head + renderer_listings(renderers@.take(i as int)),
        decreases renderers@.len() - i,
    {
        let ghost before = r@;
        push_renderer_listing(&mut r, &renderers[i]);
        proof {
            let t = renderers@.take(i + 1);
            assert(t.drop_last() =~= renderers@.take(i as int));
            assert(t.last() == renderers@[i as int]);
            assert(r@ =~= head + renderer_listings(t));
        }
        i = i + 1;
    }
    assert(renderers@.take(renderers@.len() as int) =~= renderers@);
    r
}

} // verus!
