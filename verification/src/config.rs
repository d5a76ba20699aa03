//! Configuration types for DLNA server and controller
//!
//! The file form of each configuration (`*ConfigFile`) holds what a TOML file
//! gives, with a default for each missing entry; the runtime form is built
//! from it. Durations are counted in milliseconds, except where a field's
//! name says seconds.

use vstd::prelude::*;
use vstd::std_specs::convert::FromSpecImpl;
use crate::server::state::clone_strings;
use crate::paths::{join_path, path_join};

verus! {

/// Configuration for the DLNA Media Server (DMS)
#[derive(Debug)]
pub struct ServerConfig {
    /// Friendly name shown to DLNA clients
    pub friendly_name: String,
    /// HTTP port for serving media and handling UPnP requests
    pub http_port: u16,
    /// Directories to scan for media files
    pub directories: Vec<String>,
    /// Manufacturer name in device description
    pub manufacturer: String,
    /// Model name in device description
    pub model_name: String,
    /// Enable file watcher for auto-updating library
    pub watch_enabled: bool,
    /// Debounce duration for file watcher in milliseconds
    pub watch_debounce_ms: u64,
}

impl View for ServerConfig {
    /// Name, port, directories, manufacturer, model, watch switch and debounce.
    type V = (Seq<char>, u16, Seq<Seq<char>>, Seq<char>, Seq<char>, bool, u64);

    open spec fn view(&self) -> Self::V {
        (self.friendly_name@, self.http_port, crate::server::state::string_views(self.directories@),
            self.manufacturer@, self.model_name@, self.watch_enabled, self.watch_debounce_ms)
    }
}

impl Clone for ServerConfig {
    fn clone(&self) -> (r: Self)
        ensures
            r@ == self@,
    {
        ServerConfig {
            friendly_name: self.friendly_name.clone(),
            http_port: self.http_port,
            directories: clone_strings(&self.directories),
            manufacturer: self.manufacturer.clone(),
            model_name: self.model_name.clone(),
            watch_enabled: self.watch_enabled,
            watch_debounce_ms: self.watch_debounce_ms,
        }
    }
}

/// A server configuration holds the defaults in every field but the name.
pub open spec fn server_defaults(c: ServerConfig) -> bool {
    &&& c.http_port == 8080
    &&& c.directories@.len() == 0
    &&& c.manufacturer@ == "flingdlna"@
    &&& c.model_name@ == "flingdlna DMS 1.0"@
    &&& c.watch_enabled
    &&& c.watch_debounce_ms == 1000
}

impl Default for ServerConfig {
    fn default() -> (r: Self)
        ensures
            r.friendly_name@ == "flingdlna Media Server"@,
            server_defaults(r),
    {
        ServerConfig {
            friendly_name: String::from_str("flingdlna Media Server"),
            http_port: 8080,
            directories: Vec::new(),
            manufacturer: String::from_str("flingdlna"),
            model_name: String::from_str("flingdlna DMS 1.0"),
            watch_enabled: true,
            watch_debounce_ms: 1000,
        }
    }
}

impl ServerConfig {
    /// Create a new server config with the given name
    pub fn new(friendly_name: &str) -> (r: Self)
        ensures
            r.friendly_name@ == friendly_name@,
            server_defaults(r),
    {
        let mut r = Self::default();
        r.friendly_name = String::from_str(friendly_name);
        r
    }

    /// Create a new server config named after the host: "FlingDLNA ({hostname})",
    /// given the host name where it could be read.
    pub fn new_with_hostname(hostname: Option<&str>) -> (r: Self)
        ensures
            r.friendly_name@ == "FlingDLNA ("@ + (match hostname {
                Some(h) => h@,
                None => "Unknown"@,
            }) + ")"@,
            server_defaults(r),
    {
        let mut name = String::new();
        crate::text::push_str(&mut name, "FlingDLNA (");
        match hostname {
            Some(h) => crate::text::push_str(&mut name, h),
            None => crate::text::push_str(&mut name, "Unknown"),
        }
        crate::text::push_str(&mut name, ")");
        let mut r = Self::default();
        r.friendly_name = name;
        r
    }

    /// Set the HTTP port
    pub fn with_port(self, port: u16) -> (r: Self)
        ensures
            r == (ServerConfig { http_port: port, ..self }),
    {
        let mut s = self;
        s.http_port = port;
        s
    }

    /// Add a directory to scan
    pub fn with_directory(self, path: &str) -> (r: Self)
        ensures
            r.directories@.len() == self.directories@.len() + 1,
            r.directories@.drop_last() == self.directories@,
            r.directories@.last()@ == path@,
            r == (ServerConfig { directories: r.directories, ..self }),
    {
        let mut s = self;
        s.directories.push(String::from_str(path));
        proof {
            assert(s.directories@.drop_last() =~= self.directories@);
        }
        s
    }

    /// Add multiple directories to scan
    pub fn with_directories(self, paths: Vec<String>) -> (r: Self)
        ensures
            r.directories@ == self.directories@ + paths@,
            r == (ServerConfig { directories: r.directories, ..self }),
    {
        let mut s = self;
        let mut p = paths;
        s.directories.append(&mut p);
        s
    }

    /// Enable or disable file watching
    pub fn with_watch(self, enabled: bool) -> (r: Self)
        ensures
            r == (ServerConfig { watch_enabled: enabled, ..self }),
    {
        let mut s = self;
        s.watch_enabled = enabled;
        s
    }

    /// Set file watcher debounce duration in milliseconds
    pub fn with_watch_debounce_ms(self, ms: u64) -> (r: Self)
        ensures
            r == (ServerConfig { watch_debounce_ms: ms, ..self }),
    {
        let mut s = self;
        s.watch_debounce_ms = ms;
        s
    }

    /// Get watch debounce, in milliseconds
    pub fn watch_debounce(&self) -> (r: u64)
        ensures
            r == self.watch_debounce_ms,
    {
        self.watch_debounce_ms
    }
}

/// A span of time as `std::time::Duration` holds it: whole seconds, and
/// nanoseconds below one second.
#[derive(Debug, Clone, Copy, PartialEq, Eq, Structural)]
pub struct TimeSpan {
    pub secs: u64,
    pub nanos: u32,
}

impl TimeSpan {
    /// A span of whole seconds (`Duration::from_secs`).
    pub fn from_secs(secs: u64) -> (r: TimeSpan)
        ensures
            r == (TimeSpan { secs, nanos: 0 }),
    {
        TimeSpan { secs, nanos: 0 }
    }
}

/// Configuration for the DLNA Controller (DMC)
#[derive(Debug, Clone, Copy, PartialEq, Eq, Structural)]
pub struct ControllerConfig {
    /// Timeout for device discovery
    pub discovery_timeout: TimeSpan,
    /// Port for local streaming server (when pushing files)
    pub streaming_port: u16,
}

impl Default for ControllerConfig {
    fn default() -> (r: Self)
        ensures
            r.discovery_timeout == (TimeSpan { secs: 30, nanos: 0 }),
            r.streaming_port == 9000,
    {
        ControllerConfig { discovery_timeout: TimeSpan::from_secs(30), streaming_port: 9000 }
    }
}

impl ControllerConfig {
    /// Create a new controller config
    pub fn new() -> (r: Self)
        ensures
            r.discovery_timeout == (TimeSpan { secs: 30, nanos: 0 }),
            r.streaming_port == 9000,
    {
        Self::default()
    }

    /// Set the discovery timeout
    pub fn with_discovery_timeout(self, timeout: TimeSpan) -> (r: Self)
        ensures
            r == (ControllerConfig { discovery_timeout: timeout, ..self }),
    {
        let mut s = self;
        s.discovery_timeout = timeout;
        s
    }

    /// Set the streaming port
    pub fn with_streaming_port(self, port: u16) -> (r: Self)
        ensures
            r == (ControllerConfig { streaming_port: port, ..self }),
    {
        let mut s = self;
        s.streaming_port = port;
        s
    }
}

/// Combined configuration for server and controller
#[derive(Debug)]
pub struct ComboConfig {
    pub server: Option<ServerConfig>,
    pub controller: ControllerConfig,
}

impl Clone for ComboConfig {
    fn clone(&self) -> (r: Self)
        ensures
            r.server.is_some() == self.server.is_some(),
            r.server is Some ==> r.server->0@ == self.server->0@,
            r.controller == self.controller,
    {
        let server = match &self.server {
            Some(s) => Some(s.clone()),
            None => None,
        };
        ComboConfig { server, controller: self.controller }
    }
}

impl Default for ComboConfig {
    fn default() -> (r: Self)
        ensures
            r.server is None,
            r.controller.discovery_timeout == (TimeSpan { secs: 30, nanos: 0 }),
            r.controller.streaming_port == 9000,
    {
        ComboConfig { server: None, controller: ControllerConfig::default() }
    }
}

impl ComboConfig {
    pub fn new() -> (r: Self)
        ensures
            r.server is None,
            r.controller.discovery_timeout == (TimeSpan { secs: 30, nanos: 0 }),
            r.controller.streaming_port == 9000,
    {
        Self::default()
    }

    pub fn with_server(self, config: ServerConfig) -> (r: Self)
        ensures
            r.server == Some(config),
            r.controller == self.controller,
    {
        ComboConfig { server: Some(config), controller: self.controller }
    }

    pub fn with_controller(self, config: ControllerConfig) -> (r: Self)
        ensures
            r.server == self.server,
            r.controller == config,
    {
        ComboConfig { server: self.server, controller: config }
    }
}

/// The file form of the server configuration
#[derive(Debug)]
pub struct ServerConfigFile {
    /// Friendly name shown to DLNA clients
    pub name: String,
    /// HTTP port
    pub port: u16,
    /// Directories to scan
    pub directories: Vec<String>,
    /// Manufacturer name
    pub manufacturer: String,
    /// Model name
    pub model: String,
    /// Enable file watching
    pub watch: bool,
    /// Watch debounce in milliseconds
    pub watch_debounce_ms: u64,
}

impl View for ServerConfigFile {
    /// Name, port, directories, manufacturer, model, watch switch and debounce.
    type V = (Seq<char>, u16, Seq<Seq<char>>, Seq<char>, Seq<char>, bool, u64);

    open spec fn view(&self) -> Self::V {
        (self.name@, self.port, crate::server::state::string_views(self.directories@),
            self.manufacturer@, self.model@, self.watch, self.watch_debounce_ms)
    }
}

impl Clone for ServerConfigFile {
    fn clone(&self) -> (r: Self)
        ensures
            r@ == self@,
    {
        ServerConfigFile {
            name: self.name.clone(),
            port: self.port,
            directories: clone_strings(&self.directories),
            manufacturer: self.manufacturer.clone(),
            model: self.model.clone(),
            watch: self.watch,
            watch_debounce_ms: self.watch_debounce_ms,
        }
    }
}

impl Default for ServerConfigFile {
    fn default() -> (r: Self)
        ensures
            r.name@ == "flingdlna Media Server"@,
            r.port == 8080,
            r.directories@.len() == 0,
            r.manufacturer@ == "flingdlna"@,
            r.model@ == "flingdlna DMS 1.0"@,
            r.watch,
            r.watch_debounce_ms == 1000,
    {
        ServerConfigFile {
            name: default_server_name(),
            port: default_server_port(),
            directories: Vec::new(),
            manufacturer: default_manufacturer(),
            model: default_model(),
            watch: default_watch_enabled(),
            watch_debounce_ms: default_watch_debounce_ms(),
        }
    }
}

/// Default server name of a configuration file.
pub fn default_server_name() -> (r: String)
    ensures
        r@ == "flingdlna Media Server"@,
{
    String::from_str("flingdlna Media Server")
}

/// Default HTTP port of a configuration file.
pub fn default_server_port() -> (r: u16)
    ensures
        r == 8080,
{
    8080
}

/// Default manufacturer of a configuration file.
pub fn default_manufacturer() -> (r: String)
    ensures
        r@ == "flingdlna"@,
{
    String::from_str("flingdlna")
}

/// Default model name of a configuration file.
pub fn default_model() -> (r: String)
    ensures
        r@ == "flingdlna DMS 1.0"@,
{
    String::from_str("flingdlna DMS 1.0")
}

/// Default of the server's own watch switch.
pub fn default_watch_enabled() -> (r: bool)
    ensures
        r,
{
    true
}

/// Default of the server's own watch debounce, in milliseconds.
pub fn default_watch_debounce_ms() -> (r: u64)
    ensures
        r == 1000,
{
    1000
}

/// The runtime form of a server configuration file: field by field.
pub open spec fn server_config_of(f: ServerConfigFile) -> ServerConfig {
    ServerConfig {
        friendly_name: f.name,
        http_port: f.port,
        directories: f.directories,
        manufacturer: f.manufacturer,
        model_name: f.model,
        watch_enabled: f.watch,
        watch_debounce_ms: f.watch_debounce_ms,
    }
}

impl From<ServerConfigFile> for ServerConfig {
    fn from(f: ServerConfigFile) -> (r: Self) {
        ServerConfig {
            friendly_name: f.name,
            http_port: f.port,
            directories: f.directories,
            manufacturer: f.manufacturer,
            model_name: f.model,
            watch_enabled: f.watch,
            watch_debounce_ms: f.watch_debounce_ms,
        }
    }
}

impl FromSpecImpl<ServerConfigFile> for ServerConfig {
    open spec fn obeys_from_spec() -> bool {
        true
    }

    open spec fn from_spec(f: ServerConfigFile) -> ServerConfig {
        server_config_of(f)
    }
}

/// The file form of the controller configuration
#[derive(Debug, Clone, Copy, PartialEq, Eq, Structural)]
pub struct ControllerConfigFile {
    /// Discovery timeout in seconds
    pub discovery_timeout_secs: u64,
    /// Port for local streaming server
    pub streaming_port: u16,
}

impl Default for ControllerConfigFile {
    fn default() -> (r: Self)
        ensures
            r.discovery_timeout_secs == 30,
            r.streaming_port == 9000,
    {
        ControllerConfigFile {
            discovery_timeout_secs: default_discovery_timeout(),
            streaming_port: default_streaming_port(),
        }
    }
}

/// Default discovery timeout of a configuration file, in seconds.
pub fn default_discovery_timeout() -> (r: u64)
    ensures
        r == 30,
{
    30
}

/// Default streaming port of a configuration file.
pub fn default_streaming_port() -> (r: u16)
    ensures
        r == 9000,
{
    9000
}

/// The runtime form of a controller configuration file: the timeout is the
/// configured number of seconds.
pub open spec fn controller_config_of(f: ControllerConfigFile) -> ControllerConfig {
    ControllerConfig {
        discovery_timeout: TimeSpan { secs: f.discovery_timeout_secs, nanos: 0 },
        streaming_port: f.streaming_port,
    }
}

impl From<ControllerConfigFile> for ControllerConfig {
    fn from(f: ControllerConfigFile) -> (r: Self) {
        ControllerConfig {
            discovery_timeout: TimeSpan::from_secs(f.discovery_timeout_secs),
            streaming_port: f.streaming_port,
        }
    }
}

impl FromSpecImpl<ControllerConfigFile> for ControllerConfig {
    open spec fn obeys_from_spec() -> bool {
        true
    }

    open spec fn from_spec(f: ControllerConfigFile) -> ControllerConfig {
        controller_config_of(f)
    }
}

/// The file form of the watcher configuration
#[derive(Debug, Clone, Copy, PartialEq, Eq, Structural)]
pub struct WatcherConfigFile {
    /// Enable file watching
    pub enabled: bool,
    /// Debounce duration in milliseconds
    pub debounce_ms: u64,
}

impl Default for WatcherConfigFile {
    fn default() -> (r: Self)
        ensures
            r.enabled,
            r.debounce_ms == 250,
    {
        WatcherConfigFile { enabled: default_watcher_enabled(), debounce_ms: default_debounce_ms() }
    }
}

/// Default of the watcher switch.
pub fn default_watcher_enabled() -> (r: bool)
    ensures
        r,
{
    true
}

/// Default watcher debounce, in milliseconds.
pub fn default_debounce_ms() -> (r: u64)
    ensures
        r == 250,
{
    250
}

/// Complete application configuration file
#[derive(Debug)]
pub struct AppConfigFile {
    pub server: Option<ServerConfigFile>,
    pub controller: ControllerConfigFile,
    pub watcher: WatcherConfigFile,
}

impl Clone for AppConfigFile {
    fn clone(&self) -> (r: Self)
        ensures
            r.server.is_some() == self.server.is_some(),
            r.server is Some ==> r.server->0@ == self.server->0@,
            r.controller == self.controller,
            r.watcher == self.watcher,
    {
        let server = match &self.server {
            Some(s) => Some(s.clone()),
            None => None,
        };
        AppConfigFile { server, controller: self.controller, watcher: self.watcher }
    }
}

impl Default for AppConfigFile {
    fn default() -> (r: Self)
        ensures
            r.server is None,
            r.controller.discovery_timeout_secs == 30,
            r.controller.streaming_port == 9000,
            r.watcher.enabled,
            r.watcher.debounce_ms == 250,
    {
        AppConfigFile {
            server: None,
            controller: ControllerConfigFile::default(),
            watcher: WatcherConfigFile::default(),
        }
    }
}

impl AppConfigFile {
    /// Convert to runtime configuration
    pub fn into_combo_config(self) -> (r: ComboConfig)
        ensures
            r.server == (match self.server {
                Some(s) => Some(server_config_of(s)),
                None => None,
            }),
            r.controller == controller_config_of(self.controller),
    {
        let server = match self.server {
            Some(s) => Some(ServerConfig::from(s)),
            None => None,
        };
        ComboConfig { server, controller: ControllerConfig::from(self.controller) }
    }

    /// Get watcher debounce, in milliseconds
    pub fn watcher_debounce(&self) -> (r: u64)
        ensures
            r == self.watcher.debounce_ms,
    {
        self.watcher.debounce_ms
    }

    /// Check if watcher is enabled
    pub fn watcher_enabled(&self) -> (r: bool)
        ensures
            r == self.watcher.enabled,
    {
        self.watcher.enabled
    }
}

/// The default configuration file below a configuration directory:
/// `<dir>/flingdlna/config.toml`.
pub fn default_config_path(config_dir: Option<&str>) -> (r: Option<String>)
    ensures
        match config_dir {
            Some(d) => r matches Some(p) && p@ == join_path(join_path(d@, "flingdlna"@), "config.toml"@),
            None => r is None,
        },
{
    proof {
        reveal_strlit("flingdlna");
        reveal_strlit("config.toml");
    }
    match config_dir {
        Some(d) => {
            let dir = path_join(d, "flingdlna");
            Some(path_join(dir.as_str(), "config.toml"))
        },
        None => None,
    }
}

} // verus!
