//! Download orchestration engine for a music downloader.
//!
//! The library turns a batch of track descriptors into a bounded-concurrency
//! pipeline of fetch, cover retrieval, tag and place steps, tracks per-item
//! progress and status, and computes a global completion estimate. The pieces
//! that perform I/O (processes, network, files) live outside the library; the
//! decisions, parsing and path computation are verified here.

pub mod aggregator;
pub mod album;
pub mod artist;
pub mod config;
pub mod deezer;
pub mod placement;
pub mod pool;
pub mod progress;
pub mod results;
pub mod setup;
pub mod spotify_api;
pub mod spotify_auth;
pub mod spotify_types;
pub mod strutil;
pub mod task;
pub mod track;
