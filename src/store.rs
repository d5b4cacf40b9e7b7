//! What the persistence store runs: the database location, the schema and
//! the two statements, and how an event maps to and from a row.
use vstd::prelude::*;
use crate::event::{Log, LogView};

verus! {

/// Why a store operation failed.
#[derive(Clone, Copy, Debug, PartialEq, Eq, Structural)]
pub enum StoreError {
    /// The database could not be opened or created.
    Unavailable,
    /// The schema could not be applied.
    Schema,
    /// An event could not be written.
    Write,
    /// The events could not be read.
    Read,
}

/// Creates the event table where it is absent; running it again changes
/// nothing.
pub const SCHEMA_SQL: &'static str = "CREATE TABLE IF NOT EXISTS logevents (id INTEGER PRIMARY KEY AUTOINCREMENT, timestamp TEXT NOT NULL, app TEXT NOT NULL, host TEXT NOT NULL, filename TEXT NOT NULL, log TEXT NOT NULL)";

/// Appends one event; its five values are bound in the order of
/// `insert_values`.
pub const INSERT_LOG_SQL: &'static str = "INSERT INTO logevents (timestamp, app, host, filename, log) VALUES (?, ?, ?, ?, ?)";

/// Reads every event; each row holds the columns in the order of
/// `log_from_row`.
pub const SELECT_LOGS_SQL: &'static str = "SELECT timestamp, app, host, filename, log FROM logevents";

/// The connection URL of the database file at `path`, opened for reading
/// and writing and created where absent.
pub fn database_url(path: &str) -> (r: String)
    ensures
        r@ == "sqlite://"@ + path@ + "?mode=rwc"@,
{
    let mut url = String::from_str("sqlite://");
    url.append(path);
    url.append("?mode=rwc");
    url
}

/// The values bound to `INSERT_LOG_SQL` for an event, in column order.
pub fn insert_values(e: &Log) -> (r: Vec<&str>)
    ensures
        r@.map_values(|s: &str| s@) == seq![e.timestamp@, e.app@, e.host@, e.filename@, e.log@],
{
    let r = vec![e.timestamp.as_str(), e.app.as_str(), e.host.as_str(), e.filename.as_str(), e.log.as_str()];
    assert(r@.map_values(|s: &str| s@) =~= seq![e.timestamp@, e.app@, e.host@, e.filename@, e.log@]);
    r
}

/// The event that a row of `SELECT_LOGS_SQL` holds.
pub fn log_from_row(row: (String, String, String, String, String)) -> (r: Log)
    ensures
        r@ == (LogView {
            timestamp: row.0@,
            app: row.1@,
            host: row.2@,
            filename: row.3@,
            log: row.4@,
        }),
{
    let (timestamp, app, host, filename, log) = row;
    Log::new(timestamp, app, host, filename, log)
}

} // verus!
