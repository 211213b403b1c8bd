//! A key-addressed on-disk blob cache and the cache-aside protocol that serves
//! branch details from it.
//!
//! `cache` maps an ordered sequence of string keys to a deterministic file
//! path; `entry` decides whether a cached entry can be served; `fetch` decides,
//! step by step, when the remote source must be asked and under which key its
//! answer is stored.
pub mod cache;
pub mod entry;
pub mod fetch;
