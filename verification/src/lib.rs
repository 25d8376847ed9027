//! Core of a terminal dashboard that periodically pulls log lines and
//! metrics from two monitoring backends and shows them in a scrollable,
//! selectable view.
//!
//! This crate holds the verified heart of that program: the log
//! reconciler that decides which freshly fetched entries are new, the
//! viewport bookkeeping that keeps scroll offset and selection inside
//! the log sequence, the key-command handling, and the pure helpers
//! those parts share. Network fetching, terminal drawing and the
//! clipboard live outside, in the host shell around this library.

pub mod clock;
pub mod config;
pub mod ingest;
pub mod input;
pub mod laws;
pub mod logs;
pub mod queries;
pub mod reconcile;
pub mod state;
pub mod text;
pub mod wrap;
pub mod time_range;
