//! Builds a local, offline package registry out of already downloaded
//! package archives: the download tree, the sharded index and its records.
//!
//! The library decides and computes; it performs no input or output. A run
//! ([`registry::vendor`]) names the actions to perform one by one and is told
//! how each went. What a whole run adds to the index is stated in [`trace`].

pub mod checksum;
pub mod error;
pub mod json;
pub mod layout;
pub mod record;
pub mod registry;
pub mod shard;
pub mod text;
pub mod trace;
