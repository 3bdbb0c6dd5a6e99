//! How to reach the store: its location, the size of the connection pool, and
//! whether foreign-key constraints are enforced.

use crate::sql::Statement;
use vstd::prelude::*;

verus! {

pub const DEFAULT_URL: &'static str = "sqlite:botanical.db";

pub const MEMORY_URL: &'static str = "sqlite::memory:";

pub const FILE_URL_PREFIX: &'static str = "sqlite:";

pub const ENABLE_FOREIGN_KEYS: &'static str = "PRAGMA foreign_keys = ON";

pub const DISABLE_FOREIGN_KEYS: &'static str = "PRAGMA foreign_keys = OFF";

/// Configuration of the connection to the store.
#[derive(Debug, Clone)]
pub struct DatabaseConfig {
    /// Location of the store: a file path, or the ephemeral in-memory store.
    pub url: String,
    /// Largest number of connections in the pool.
    pub max_connections: u32,
    /// Whether foreign-key constraints are enforced.
    pub foreign_keys: bool,
}

impl Default for DatabaseConfig {
    /// A file-backed store named botanical.db, ten connections, foreign keys on.
    fn default() -> (r: DatabaseConfig)
        ensures
            r.url@ == DEFAULT_URL@,
            r.max_connections == 10,
            r.foreign_keys,
    {
        DatabaseConfig { url: String::from_str(DEFAULT_URL), max_connections: 10, foreign_keys: true }
    }
}

impl DatabaseConfig {
    /// The ephemeral in-memory store, on a single connection (every connection
    /// to it would see a store of its own), foreign keys on.
    pub fn memory() -> (r: DatabaseConfig)
        ensures
            r.url@ == MEMORY_URL@,
            r.max_connections == 1,
            r.foreign_keys,
    {
        DatabaseConfig { url: String::from_str(MEMORY_URL), max_connections: 1, foreign_keys: true }
    }

    /// A file-backed store at `path`, ten connections, foreign keys on.
    pub fn file(path: &str) -> (r: DatabaseConfig)
        ensures
            r.url@ == FILE_URL_PREFIX@ + path@,
            r.max_connections == 10,
            r.foreign_keys,
    {
        let mut url = String::from_str(FILE_URL_PREFIX);
        url.append(path);
        DatabaseConfig { url, max_connections: 10, foreign_keys: true }
    }

    /// The statements to run on each new connection: one that turns
    /// foreign-key enforcement on or off, as the configuration asks.
    pub fn connection_setup(&self) -> (r: Vec<Statement>)
        ensures
            r@.len() == 1,
            r@[0].sql@ == (if self.foreign_keys { ENABLE_FOREIGN_KEYS@ } else { DISABLE_FOREIGN_KEYS@ }),
            r@[0].params@.len() == 0,
            r@[0].columns@.len() == 0,
    {
        let sql = if self.foreign_keys { ENABLE_FOREIGN_KEYS } else { DISABLE_FOREIGN_KEYS };
        vec![Statement { sql: String::from_str(sql), params: Vec::new(), columns: Vec::new() }]
    }
}

} // verus!
