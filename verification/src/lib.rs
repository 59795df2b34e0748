//! Core logic of a wallpaper-rotation tool that picks a random image from a
//! remote photo-album server, reuses a locally cached copy when its digest
//! still matches, downloads it with retry and linear backoff otherwise, and
//! falls back to a previously cached file when the network path fails.
//!
//! Everything here is pure decision logic over plain values; the surrounding
//! binary performs the HTTP requests, file reads and writes, sleeps and the
//! wallpaper-setter subprocess call, and feeds the outcomes back in.

pub mod backoff;
pub mod checksum;
pub mod downloader;
pub mod errors;
pub mod fallback;
pub mod invoker;
pub mod model;
pub mod resolver;
mod rng;
pub mod text;
