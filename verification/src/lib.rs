//! Verified core of a small video/audio downloader front-end: how a request
//! becomes a yt-dlp command line, how yt-dlp's output is read back into a job's
//! state, how tools are located and installed, and how settings are kept sane.

pub mod text;
pub mod settings;
pub mod download;
pub mod job;
pub mod platform;
pub mod tools;
pub mod archive;
pub mod setup;
