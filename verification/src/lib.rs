//! Verified core of an archive-manager adapter for the ERA game-archive
//! container format.
//!
//! The adapter maps a parsed container's entries onto the host's item/index
//! space (entry 0, the reserved filename table, is never surfaced), serves
//! per-item payloads, and plans rebuilds that reuse already-compressed bytes
//! for copied entries instead of decompressing and recompressing them.
//!
//! The container's crypto and compression codec are outside collaborators:
//! this crate works on the parsed form of an archive, in which every entry
//! carries both its stored chunk (compressed bytes, recorded decompressed
//! size, integrity digest) and the payload that chunk decodes to.

pub mod container;
pub mod error;
pub mod format;
pub mod item;
pub mod laws;
pub mod names;
