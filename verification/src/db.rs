//! Database connection configuration.
//!
//! Opening the connection and running queries belongs to the repository
//! backend outside the library; what is decided here is the
//! configuration record handed to it.

use vstd::prelude::*;

verus! {

/// Database configuration.
#[derive(Clone, PartialEq, Eq, Debug)]
pub struct DbConfig {
    /// Connection endpoint, such as an in-memory engine or a file path.
    pub endpoint: String,
    /// Namespace to use.
    pub namespace: String,
    /// Database name to use.
    pub database: String,
    /// Optional root credentials for authentication.
    pub credentials: Option<(String, String)>,
}

impl Default for DbConfig {
    fn default() -> (r: Self)
        ensures
            r.endpoint@ == "mem://"@,
            r.namespace@ == "jobqueue"@,
            r.database@ == "main"@,
            r.credentials is None,
    {
        DbConfig {
            endpoint: "mem://".to_owned(),
            namespace: "jobqueue".to_owned(),
            database: "main".to_owned(),
            credentials: None,
        }
    }
}

impl DbConfig {
    /// Create a config for in-memory testing.
    pub fn memory() -> (r: Self)
        ensures
            r.endpoint@ == "mem://"@,
            r.namespace@ == "jobqueue"@,
            r.database@ == "main"@,
            r.credentials is None,
    {
        Default::default()
    }

    /// Create a config for file-based persistence.
    pub fn file(path: String) -> (r: Self)
        ensures
            r.endpoint@ == "file://"@ + path@,
            r.namespace@ == "jobqueue"@,
            r.database@ == "main"@,
            r.credentials is None,
    {
        let base: DbConfig = Default::default();
        DbConfig { endpoint: "file://".to_owned().concat(path.as_str()), ..base }
    }

    /// Create a config for RocksDB persistence.
    pub fn rocksdb(path: String) -> (r: Self)
        ensures
            r.endpoint@ == "rocksdb://"@ + path@,
            r.namespace@ == "jobqueue"@,
            r.database@ == "main"@,
            r.credentials is None,
    {
        let base: DbConfig = Default::default();
        DbConfig { endpoint: "rocksdb://".to_owned().concat(path.as_str()), ..base }
    }

    /// Set the namespace.
    pub fn with_namespace(self, namespace: String) -> (r: Self)
        ensures
            r == (DbConfig { namespace: namespace, ..self }),
    {
        DbConfig { namespace, ..self }
    }

    /// Set the database name.
    pub fn with_database(self, database: String) -> (r: Self)
        ensures
            r == (DbConfig { database: database, ..self }),
    {
        DbConfig { database, ..self }
    }

    /// Set root credentials for authentication.
    pub fn with_credentials(self, username: String, password: String) -> (r: Self)
        ensures
            r == (DbConfig { credentials: Some((username, password)), ..self }),
    {
        DbConfig { credentials: Some((username, password)), ..self }
    }
}

} // verus!
