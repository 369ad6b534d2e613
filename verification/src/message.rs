//! What the journal watcher tells the presence.

use vstd::prelude::*;

use crate::journal_event::JournalEvent;

verus! {

/// What the journal watcher tells the presence.
#[derive(Debug, Clone, PartialEq, Eq)]
pub enum Message {
    /// A session began at `timestamp` (seconds since the Unix epoch).
    SessionStart { timestamp: i64 },
    /// The session ended.
    SessionEnd,
    JournalEvent(JournalEvent),
    JournalEvents(Vec<JournalEvent>),
}

} // verus!
