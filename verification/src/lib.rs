//! Tools for OpenStreetMap: resolving a point in time to the sequence number
//! of a replication feed, following a feed as it grows, and addressing the
//! elements and changesets of the editing API.
//!
//! The crate does no input or output. Whatever needs the network is written as
//! a machine that says what to fetch and is told what came back.

pub mod changeset;
pub mod element;
pub mod feed;
pub mod replication;
pub mod resolve;
pub mod state;
pub mod text;
pub mod timestamp;
pub mod util;
pub mod watch;
