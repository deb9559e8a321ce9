//! The settings of a run.
use vstd::prelude::*;

verus! {

/// What a run works on: the repository's name, the side length of the
/// generated emotes, and the source and public directories.
#[derive(Debug, Clone)]
pub struct Config {
    pub repo_name: String,
    pub emote_size: u32,
    pub source_dir: String,
    pub public_dir: String,
}

impl Default for Config {
    fn default() -> (r: Config)
        ensures
            r.repo_name@ == "Nitroless Repo"@,
            r.emote_size == 48,
            r.source_dir@ == "emotes"@,
            r.public_dir@ == "public"@,
    {
        Config {
            repo_name: String::from_str("Nitroless Repo"),
            emote_size: 48,
            source_dir: String::from_str("emotes"),
            public_dir: String::from_str("public"),
        }
    }
}

} // verus!
