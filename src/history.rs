//! The history-sync envelope: a batch of browsing-history records with the
//! sending device and the time it was sent.
use vstd::prelude::*;
use vstd::string::*;

verus! {

/// One browsing-history record.
#[derive(Clone, Debug, PartialEq, Eq)]
pub struct HistoryEntry {
    pub url: String,
    pub title: String,
    pub visit_time: i64,
    pub duration: Option<i64>,
    pub device_id: String,
    pub is_article: bool,
    pub content: Option<String>,
    pub reading_time: Option<i32>,
}

/// The envelope carried on a room topic.
#[derive(Clone, Debug, PartialEq, Eq)]
pub struct SyncMessage {
    pub message_type: String,
    pub entries: Vec<HistoryEntry>,
    pub device_id: String,
    pub timestamp: i64,
}

/// The type tag of a history-sync envelope.
pub open spec fn history_sync_tag() -> Seq<char> {
    "history_sync"@
}

/// `m` is the history-sync envelope of `entries` from `device_id`, sent at
/// `timestamp`.
pub open spec fn is_history_sync(
    m: SyncMessage,
    entries: Seq<HistoryEntry>,
    device_id: Seq<char>,
    timestamp: i64,
) -> bool {
    &&& m.message_type@ == history_sync_tag()
    &&& m.entries@ == entries
    &&& m.device_id@ == device_id
    &&& m.timestamp == timestamp
}

impl SyncMessage {
    /// Wraps `entries` in a history-sync envelope; `timestamp` is the send
    /// time in milliseconds since the Unix epoch.
    pub fn history_sync(entries: Vec<HistoryEntry>, device_id: String, timestamp: i64) -> (r: Self)
        ensures
            is_history_sync(r, entries@, device_id@, timestamp),
    {
        SyncMessage {
            message_type: String::from_str("history_sync"),
            entries,
            device_id,
            timestamp,
        }
    }
}

} // verus!
