use vstd::prelude::*;

verus! {

/// The SQLite file that holds the history.
pub const DB_PATH: &'static str = "clipboard_history.db";

/// The address under which the history database is opened.
pub const DATABASE_URL: &'static str = "sqlite://clipboard_history.db";

/// The most connections the database pool opens.
pub const MAX_CONNECTIONS: u32 = 5;

/// Seconds between two looks at the clipboard.
pub const POLL_INTERVAL_SECS: u64 = 1;

/// The table of remembered clipboard texts, made where it is missing.
pub const CREATE_TABLE_SQL: &'static str = "CREATE TABLE IF NOT EXISTS clipboard_history (\n            id INTEGER PRIMARY KEY AUTOINCREMENT,\n            content TEXT NOT NULL,\n            timestamp DATETIME DEFAULT CURRENT_TIMESTAMP\n        )";

/// Stores a new clipboard text (bound as the one parameter).
pub const INSERT_SQL: &'static str = "INSERT INTO clipboard_history (content) VALUES (?1)";

/// The fifty newest entries, newest first: what the window shows.
pub const RECENT_SQL: &'static str = "SELECT id, content FROM clipboard_history ORDER BY id DESC LIMIT 50";

/// Deletes the entry whose id is bound as the one parameter.
pub const DELETE_SQL: &'static str = "DELETE FROM clipboard_history WHERE id = ?1";

/// All entries, newest first: what is exported.
pub const EXPORT_SQL: &'static str = "SELECT id, content FROM clipboard_history ORDER BY id DESC";

} // verus!
