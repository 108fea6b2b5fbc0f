//! Process configuration: the listen port and the ordered list of repository
//! paths. It is constructed once at startup and handed by reference to the
//! scrape pipeline; nothing here is ever mutated after load.

use vstd::prelude::*;

verus! {

/// The exporter's configuration: a listen port and the ordered list of
/// repository paths (each a filesystem path, kept as text).
pub struct Config {
    pub port: u16,
    pub repositories: Vec<String>,
}

impl Config {
    /// The defaults used when no configuration file exists yet: port 9002 and
    /// no repositories.
    pub fn new_default() -> (c: Self)
        ensures
            c.port == 9002,
            c.repositories@ =~= Seq::<String>::empty(),
    {
        Self { port: 9002, repositories: Vec::new() }
    }
}

} // verus!
