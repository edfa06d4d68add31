//! Data-integrity and peer-discovery core of a swarm file-transfer client.
//!
//! The library covers the piece store (buffering partial downloads and
//! checking completed pieces against their expected digests), the tracker
//! announce codec (percent-encoded query pairs out, peer lists in), and the
//! decision logic of the periodic announce loop.

pub mod announce;
pub mod bvalue;
pub mod encode;
pub mod file;
pub mod ip;
pub mod tracker;
