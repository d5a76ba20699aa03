pub mod text;
pub mod fixed;
pub mod error;
pub mod process;
pub mod wol;
pub mod utils;
pub mod config;
pub mod urls;
pub mod ssdp;
pub mod net;
pub mod ffi;
pub mod tui;
pub mod tui_library;
pub mod tui_status;
pub mod tui_actions;
pub mod tui_text;
pub mod cli;
pub mod daemon;
pub mod paths;
pub mod types;
pub mod server;
