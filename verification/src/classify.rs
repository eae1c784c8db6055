//! The event classifier: which kinds of record a chunk holds, told by the
//! marker texts that stand in it.

use crate::text::{contains, contains_chars, to_chars};
use vstd::prelude::*;

verus! {

/// Marks a record of the process manager's log.
pub const LOG_EVENT: &'static str = "s:log:PM2";

/// Marks a record about the state of a process.
pub const PROCESS_EVENT: &'static str = "s:process:event";

/// Stands in a log record that reports a kill for exceeding the memory limit.
pub const RESTART_EVENT: &'static str = "restarted because it exceeds --max-memory-restart";

/// Stands in a process record that reports that the process is running.
pub const EVENT_TYPE: &'static str = "\"event\":\"online\"";

/// The kinds of record found in a chunk. The two are looked for
/// independently: a chunk may hold both, or neither.
#[derive(Clone, Copy, Debug, PartialEq, Eq, Structural)]
pub struct Classification {
    pub log_event: bool,
    pub process_event: bool,
}

/// The classification of a text by the two record markers.
pub open spec fn classification_of(text: Seq<char>) -> Classification {
    Classification {
        log_event: contains(text, LOG_EVENT@),
        process_event: contains(text, PROCESS_EVENT@),
    }
}

/// A log record that reports a kill for exceeding the memory limit: only in
/// such a text is the restart sentence looked for.
pub open spec fn is_restart_log(text: Seq<char>) -> bool {
    contains(text, LOG_EVENT@) && contains(text, RESTART_EVENT@)
}

/// A process record that reports a running process: only such a text is
/// searched for the embedded object.
pub open spec fn is_online_event(text: Seq<char>) -> bool {
    contains(text, PROCESS_EVENT@) && contains(text, EVENT_TYPE@)
}

/// Whether `marker` stands somewhere in `text`.
pub fn has_marker(text: &str, marker: &str) -> (found: bool)
    ensures
        found == contains(text@, marker@),
{
    let hay = to_chars(text);
    let needle = to_chars(marker);
    contains_chars(hay.as_slice(), needle.as_slice())
}

/// Classifies a chunk by the record markers that stand in it.
pub fn classify(text: &str) -> (kinds: Classification)
    ensures
        kinds == classification_of(text@),
{
    let hay = to_chars(text);
    let log_marker = to_chars(LOG_EVENT);
    let process_marker = to_chars(PROCESS_EVENT);
    Classification {
        log_event: contains_chars(hay.as_slice(), log_marker.as_slice()),
        process_event: contains_chars(hay.as_slice(), process_marker.as_slice()),
    }
}

} // verus!
