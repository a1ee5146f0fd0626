//! Core logic of a desktop overlay that controls a local music-player daemon
//! through its command-line tool: parsers for the tool's text output, a
//! snapshot cache with change detection, the translation of user intents into
//! commands, and the per-tick decisions of the pollers. All process I/O lives
//! outside this crate; everything here is pure and verified.

pub mod cache;
pub mod command;
pub mod config;
pub mod model;
pub mod parse;
pub mod poller;
pub mod text;
