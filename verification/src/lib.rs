//! Core of a terminal image browser: the concurrent preview loading and
//! caching engine.
//!
//! The engine turns a user's file selection into decode requests, tracks
//! which paths are loading, failed or loaded, enforces a concurrency budget
//! for background preloading, evicts stale cache entries, and derives the
//! status shown next to the preview.  All of its state is owned by the
//! render loop; background decode workers report back only through events
//! handed to [`app::App::process_image_load_events`].

pub mod app;
pub mod decode;
pub mod fast_image_loader;
pub mod image_utils;
pub mod metadata;
pub mod path_set;
pub mod paths;
pub mod types;
