pub mod state;
pub mod description;
pub mod didl;
pub mod content_directory;
pub mod http;
pub mod metadata;
pub mod cache;
pub mod scanner;
pub mod watcher;
pub mod media_server;
