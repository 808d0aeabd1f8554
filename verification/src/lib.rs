//! Job dispatch, content cache and eviction rules of a video fetch service.
//!
//! The service fetches remote videos through a fetch engine and keeps what it
//! fetched in a cache on disk. This library holds its rules and proves them; it
//! reads no clock, no disk and no network. Its callers do that, and hand it what
//! they found as plain values.
//!
//! - [`dispatch`]: what a job does next, from its phase and the event that came.
//! - [`slots`]: how many fetches run at once, and who waits.
//! - [`cache`]: which file of an entry is a usable artifact.
//! - [`filename`]: the file name made from a title.
//! - [`engine`]: the engine's failures, and the signature of a corrupted
//!   installation.
//! - [`cleanup`]: which entries a sweep removes, and when sweeps run.
//! - [`config`]: the settings and how the environment sets them.
//! - [`routes`]: the reply to a request and the address of an artifact.
//! - [`youtube`]: the shape of a video URL.
//! - [`text`]: helpers on characters.

pub mod cache;
pub mod cleanup;
pub mod config;
pub mod dispatch;
pub mod engine;
pub mod filename;
pub mod routes;
pub mod slots;
pub mod text;
pub mod youtube;
