//! Per-participant counters for telemetry.
//!
//! The dispatcher runs single-threaded per participant, so plain integers
//! suffice; counters saturate at the top of the range instead of wrapping.

use vstd::prelude::*;

use crate::context::bump;

verus! {

/// Increment a counter, saturating at the top of the range.
pub fn saturating_inc(x: u64) -> (r: u64)
    ensures
        r == bump(x),
{
    if x == u64::MAX {
        u64::MAX
    } else {
        x + 1
    }
}

/// Per-participant statistics.
#[derive(Clone, Copy, PartialEq, Eq, Structural, Debug)]
pub struct ParticipantStats {
    /// Relevant, non-duplicate events consumed.
    pub events_received: u64,
    /// Events that passed the saga-type filter.
    pub events_relevant: u64,
    /// Events dropped by the dedupe gate.
    pub duplicate_events: u64,
    /// Forward step executions begun.
    pub steps_started: u64,
    /// Forward step executions that succeeded.
    pub steps_completed: u64,
    /// Forward step executions that failed for good.
    pub steps_failed: u64,
    /// Compensations begun.
    pub compensations_started: u64,
    /// Compensations that succeeded.
    pub compensations_completed: u64,
    /// Sagas quarantined at this participant.
    pub quarantined_sagas: u64,
}

impl ParticipantStats {
    /// All counters at zero.
    pub fn new() -> (r: Self)
        ensures
            r == ParticipantStats::zeroed(),
    {
        ParticipantStats {
            events_received: 0,
            events_relevant: 0,
            duplicate_events: 0,
            steps_started: 0,
            steps_completed: 0,
            steps_failed: 0,
            compensations_started: 0,
            compensations_completed: 0,
            quarantined_sagas: 0,
        }
    }

    /// The all-zero statistics record.
    pub open spec fn zeroed() -> Self {
        ParticipantStats {
            events_received: 0,
            events_relevant: 0,
            duplicate_events: 0,
            steps_started: 0,
            steps_completed: 0,
            steps_failed: 0,
            compensations_started: 0,
            compensations_completed: 0,
            quarantined_sagas: 0,
        }
    }

    /// A read-only copy of the counters.
    pub fn snapshot(&self) -> (r: ParticipantStatsSnapshot)
        ensures
            r.events_received == self.events_received,
            r.events_relevant == self.events_relevant,
            r.duplicate_events == self.duplicate_events,
            r.steps_started == self.steps_started,
            r.steps_completed == self.steps_completed,
            r.steps_failed == self.steps_failed,
            r.compensations_started == self.compensations_started,
            r.compensations_completed == self.compensations_completed,
            r.quarantined_sagas == self.quarantined_sagas,
    {
        ParticipantStatsSnapshot {
            events_received: self.events_received,
            events_relevant: self.events_relevant,
            duplicate_events: self.duplicate_events,
            steps_started: self.steps_started,
            steps_completed: self.steps_completed,
            steps_failed: self.steps_failed,
            compensations_started: self.compensations_started,
            compensations_completed: self.compensations_completed,
            quarantined_sagas: self.quarantined_sagas,
        }
    }
}

/// Read-only snapshot of the counters.
#[derive(Clone, Copy, PartialEq, Eq, Structural, Debug)]
pub struct ParticipantStatsSnapshot {
    /// Relevant, non-duplicate events consumed.
    pub events_received: u64,
    /// Events that passed the saga-type filter.
    pub events_relevant: u64,
    /// Events dropped by the dedupe gate.
    pub duplicate_events: u64,
    /// Forward step executions begun.
    pub steps_started: u64,
    /// Forward step executions that succeeded.
    pub steps_completed: u64,
    /// Forward step executions that failed for good.
    pub steps_failed: u64,
    /// Compensations begun.
    pub compensations_started: u64,
    /// Compensations that succeeded.
    pub compensations_completed: u64,
    /// Sagas quarantined at this participant.
    pub quarantined_sagas: u64,
}

} // verus!
