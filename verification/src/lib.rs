//! Verified core of the Murmur dictation utility.

pub mod text;
pub mod hotkey;
pub mod injector;
pub mod api;
pub mod audio;
pub mod config;
pub mod downloader;
pub mod session;
pub mod voice_notes;
pub mod local_llm;
