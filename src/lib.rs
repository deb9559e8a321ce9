//! Incremental synchronisation of an emote repository: a source directory of
//! images is mirrored into a public directory of resized copies, with an index.
pub mod batch;
pub mod catalog;
pub mod config;
pub mod imaging;
pub mod json;
pub mod laws;
pub mod plan;
pub mod staleness;

pub use catalog::{find_emotes, Emote};
pub use imaging::{make_repo_icons, resize};
pub use staleness::is_newer_than;
