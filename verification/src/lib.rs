//! Aggregation of captured link-layer frames into per-stream packet logs.
//!
//! Frames arrive tagged with the name of the logical stream they belong to.
//! The library holds the record model, the tag envelope of externally fed
//! streams, the snap-length policy, the registry of streams that already have
//! a sink, and the byte encoding of records handed to a sink.

pub mod error;
pub mod record;
pub mod wire;
pub mod source;
pub mod demux;
pub mod config;
pub mod registry;
pub mod aggregator;
pub mod laws;
