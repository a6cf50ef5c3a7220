//! Session management for downloads that an external downloader program
//! carries out.
//!
//! * [`registry`] keeps the active downloads, one session per key, and routes
//!   cancellation to the session that runs under a key.
//! * [`session`] says what a session does on each thing that happens to it,
//!   and [`download`] is the session as its driver holds it.
//! * [`progress`] decodes the downloader's output into progress reports,
//!   and [`reports`] says what the host is told over a whole download.
//! * [`system`] holds what is proved of the registry and its sessions taken
//!   together.
//! * [`commands`] is what a host asks for: start a download, cancel one.
//!
//! The library neither runs a process nor waits for one. A driver does that,
//! as the session asks, and tells the session what happened.

pub mod emissions;
pub mod progress;
pub mod outcome;
pub mod components;
pub mod config;
pub mod notification;
pub mod session;
pub mod reports;
pub mod channel;
pub mod registry;
pub mod app_state;
pub mod logging;
pub mod ytdlp;
pub mod download;
pub mod commands;
pub mod system;
