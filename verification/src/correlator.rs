//! The correlator: the single pending identifier, and the decision whether a
//! process event completes the restart it stands for.

use vstd::prelude::*;

verus! {

/// A candidate completes the pending restart: an identifier is pending and
/// the candidate equals it.
pub open spec fn fires(pending: Option<i64>, candidate: i64) -> bool {
    pending == Some(candidate)
}

/// The pending identifier after a candidate was observed: cleared by the
/// candidate that completes it, kept otherwise.
pub open spec fn after_observe(pending: Option<i64>, candidate: i64) -> Option<i64> {
    if fires(pending, candidate) {
        None
    } else {
        pending
    }
}

/// Holds at most one identifier: that of a process killed for its memory use
/// whose restart has not been seen yet.
#[derive(Debug)]
pub struct Correlator {
    pending: Option<i64>,
}

impl View for Correlator {
    type V = Option<i64>;

    closed spec fn view(&self) -> Option<i64> {
        self.pending
    }
}

impl Correlator {
    /// A correlator with nothing pending.
    pub fn new() -> (fresh: Correlator)
        ensures
            fresh@ is None,
    {
        Correlator { pending: None }
    }

    /// The pending identifier, if there is one.
    pub fn pending(&self) -> (id: Option<i64>)
        ensures
            id == self@,
    {
        self.pending
    }

    /// Puts `found` in the place of whatever was pending: a later restart
    /// replaces an earlier one, and a scan that found nothing leaves nothing
    /// pending.
    pub fn set_pending(&mut self, found: Option<i64>)
        ensures
            final(self)@ == found,
    {
        self.pending = found;
    }

    /// Observes a process event. If its identifier is the pending one, the
    /// pending identifier is cleared and the name is handed out for the alert;
    /// if not, nothing changes and nothing is handed out.
    pub fn observe(&mut self, candidate_id: i64, candidate_name: &str) -> (emitted: Option<String>)
        ensures
            final(self)@ == after_observe(old(self)@, candidate_id),
            emitted is Some <==> fires(old(self)@, candidate_id),
            emitted matches Some(name) ==> name@ == candidate_name@,
    {
        let fired = match self.pending {
            Some(id) => id == candidate_id,
            None => false,
        };
        if fired {
            self.pending = None;
            Some(candidate_name.to_owned())
        } else {
            None
        }
    }
}

/// Observing a candidate that does not complete the pending restart changes
/// nothing, so observing it again does not fire either, however often.
pub proof fn law_unmatched_observation_changes_nothing(pending: Option<i64>, candidate: i64)
    requires
        !fires(pending, candidate),
    ensures
        after_observe(pending, candidate) == pending,
        !fires(after_observe(pending, candidate), candidate),
        after_observe(after_observe(pending, candidate), candidate) == pending,
{
}

/// Once a candidate has fired, nothing is pending: no later candidate fires,
/// the same one included, until a new restart is recorded.
pub proof fn law_fires_at_most_once(pending: Option<i64>, candidate: i64, later: i64)
    requires
        fires(pending, candidate),
    ensures
        after_observe(pending, candidate) is None,
        !fires(after_observe(pending, candidate), later),
{
}

} // verus!
