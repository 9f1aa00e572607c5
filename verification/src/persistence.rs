//! File-based state persistence for actors: where each named state file
//! lives.
//!
//! Reading and writing the files is asynchronous I/O and happens outside
//! the library; what is decided here is the layout: one JSON file per
//! state name under the base directory, written via a temporary file and
//! a rename for atomicity.

use vstd::prelude::*;

verus! {

/// State persistence for actors.
pub struct StatePersistence {
    /// Base directory for state files.
    pub base_dir: String,
}

impl StatePersistence {
    /// Create a new persistence instance.
    pub fn new(base_dir: String) -> (r: StatePersistence)
        ensures
            r.base_dir == base_dir,
    {
        StatePersistence { base_dir }
    }

    /// Create persistence with default data directory.
    pub fn default_dir() -> (r: StatePersistence)
        ensures
            r.base_dir@ == "./data/queues"@,
    {
        StatePersistence { base_dir: "./data/queues".to_owned() }
    }

    /// The path of the state file for a name.
    pub fn state_file_path(&self, name: &str) -> (r: String)
        ensures
            r@ == self.base_dir@ + "/"@ + name@ + ".json"@,
    {
        self.base_dir.clone().concat("/").concat(name).concat(".json")
    }

    /// The path of the temporary file written before the rename.
    pub fn temp_file_path(&self, name: &str) -> (r: String)
        ensures
            r@ == self.base_dir@ + "/"@ + name@ + ".json.tmp"@,
    {
        self.base_dir.clone().concat("/").concat(name).concat(".json.tmp")
    }
}

} // verus!
