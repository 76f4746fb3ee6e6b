//! Data persisted by the flat-file storage collaborator — bookmarks, visit
//! history and browser-import results — and the timestamp conversions used
//! when other browsers' data is brought in. The file and database I/O lives
//! with the host.

use vstd::prelude::*;

verus! {

/// One saved bookmark.
pub struct Bookmark {
    pub id: String,
    pub url: String,
    pub title: String,
    pub favicon: Option<String>,
    pub created_at: i64,
}

/// One visit in the browsing history.
pub struct HistoryEntry {
    pub id: String,
    pub url: String,
    pub title: String,
    pub favicon: Option<String>,
    pub visited_at: i64,
}

/// What an import from another browser brought in.
pub struct ImportResult {
    pub bookmarks: Vec<Bookmark>,
    pub history: Vec<HistoryEntry>,
}

/// A browser found installed on this machine.
pub struct DetectedBrowser {
    pub id: String,
    pub name: String,
    pub available: bool,
}

/// The offset of the WebKit epoch (1601) from the Unix epoch, in
/// microseconds.
pub const WEBKIT_TIMESTAMP_TO_UNIX_EPOCH: i64 = 11644473600000000;

/// Converts a Chrome history timestamp — microseconds since 1601 — to Unix
/// seconds. Times before the Unix epoch do not occur in imported history.
pub fn chrome_time_to_timestamp(chrome_time: i64) -> (r: i64)
    requires
        chrome_time >= WEBKIT_TIMESTAMP_TO_UNIX_EPOCH,
    ensures
        r == (chrome_time - WEBKIT_TIMESTAMP_TO_UNIX_EPOCH) / 1000000,
{
    let diff: u64 = (chrome_time - WEBKIT_TIMESTAMP_TO_UNIX_EPOCH) as u64;
    (diff / 1000000) as i64
}

/// Converts a Firefox history timestamp — microseconds since the Unix epoch
/// — to Unix seconds. Times before the Unix epoch do not occur in imported
/// history.
pub fn firefox_time_to_timestamp(firefox_time: i64) -> (r: i64)
    requires
        firefox_time >= 0,
    ensures
        r == firefox_time / 1000000,
{
    let diff: u64 = firefox_time as u64;
    (diff / 1000000) as i64
}

} // verus!
