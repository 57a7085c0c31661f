//! Core of a client-side transfer manager for an object-storage service.
//!
//! The library holds the verified heart of the manager: the strict
//! `scheme://container/key` address parser, the pure chunked-transfer
//! policy, the progress-observing stream accounting, and the per-transfer
//! orchestration state machine that decides which progress callbacks to
//! fire and how the destination buffer grows.  The network client, the
//! async plumbing and the terminal progress bar live outside, around this
//! core.

pub mod manager;
pub mod stream;
pub mod uri;
