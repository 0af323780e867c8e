//! Core of a media server: a stream transcoding pipeline (stream routing,
//! decode/encode state machines, timestamp rescaling, progress tracking) and a
//! partial-content delivery engine (byte-range parsing, chunk planning,
//! response framing).
//!
//! Everything here is plain data and decisions. The surrounding binary owns
//! the actual container/codec library calls and the file and network I/O, and
//! drives these state machines with the events it observes.

pub mod classify;
pub mod config;
pub mod delivery;
pub mod machine;
pub mod media;
pub mod numfmt;
pub mod opts;
pub mod packet;
pub mod progress;
pub mod rational;
pub mod strutil;
pub mod writer;
