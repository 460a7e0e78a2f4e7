//! Change detection: the last rendered measurement and whether a new one
//! warrants a refresh.
use vstd::prelude::*;

use crate::frame::Measurement;

verus! {

/// Holds the measurement most recently rendered, or `None` before the first
/// render.
#[derive(Clone, Copy, Debug, PartialEq, Eq, Structural)]
pub struct StatusTracker {
    pub last: Option<Measurement>,
}

impl StatusTracker {
    /// A new measurement warrants a refresh iff it differs from the last one
    /// rendered (exact comparison); the first measurement always does.
    pub open spec fn wants(self, m: Measurement) -> bool {
        self.last != Some(m)
    }

    /// The tracker once `m` is recorded as rendered.
    pub open spec fn accepted(self, m: Measurement) -> StatusTracker {
        StatusTracker { last: Some(m) }
    }

    /// A tracker that has rendered nothing yet.
    pub fn new() -> (r: StatusTracker)
        ensures
            r.last.is_none(),
    {
        StatusTracker { last: None }
    }

    /// The last rendered measurement, if any.
    pub fn last(&self) -> (r: Option<Measurement>)
        ensures
            r == self.last,
    {
        self.last
    }

    /// True iff `m` differs from the last rendered measurement.
    pub fn should_update(&self, m: Measurement) -> (r: bool)
        ensures
            r == self.wants(m),
    {
        match self.last {
            Some(prev) => prev.hundredths != m.hundredths,
            None => true,
        }
    }

    /// Records `m` as the measurement now rendered.
    pub fn accept(&mut self, m: Measurement)
        ensures
            *final(self) == old(self).accepted(m),
            final(self).last == Some(m),
    {
        self.last = Some(m);
    }
}

/// Once a measurement is accepted, the same measurement does not warrant a
/// refresh again, and every measurement that differs from it does.
pub proof fn lemma_accept_then_only_changes_update(t: StatusTracker, v: Measurement, w: Measurement)
    ensures
        !t.accepted(v).wants(v),
        t.accepted(v).wants(w) <==> w != v,
{
}

/// Accepting a measurement and then asking about the same measurement gives
/// no refresh.
pub proof fn lemma_accept_round_trip(t: StatusTracker, v: Measurement)
    ensures
        !t.accepted(v).wants(v),
{
}

} // verus!
