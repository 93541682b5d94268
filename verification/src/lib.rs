//! Core of a terminal feed aggregator: session state with a staleness guard,
//! fan-in merging of per-source fetch results, feed-item normalization, the
//! article-extraction fallback chain, and bookmark-line formatting.
//!
//! Network transport, the terminal, and the file system live outside this
//! library; it works on plain values handed in and returns plain values.

pub mod aggregate;
pub mod article;
pub mod bookmark;
pub mod config;
pub mod feed;
pub mod item;
pub mod session;
pub mod textscan;
