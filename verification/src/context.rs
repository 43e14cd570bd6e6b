//! Saga identity and the correlation context carried by every event.

use vstd::prelude::*;

verus! {

/// Unique identifier for a saga execution.
///
/// Stable for the saga's whole life; monotone per initiator is sufficient,
/// global uniqueness is not required.
#[derive(Clone, Copy, PartialEq, Eq, Structural, Hash, Debug)]
pub struct SagaId(pub u64);

impl SagaId {
    /// Create a new saga ID.
    pub fn new(id: u64) -> (r: Self)
        ensures
            r.0 == id,
    {
        SagaId(id)
    }

    /// Get the raw ID value.
    pub fn get(&self) -> (r: u64)
        ensures
            r == self.0,
    {
        self.0
    }
}

/// Unique identifier for a step within a saga.
#[derive(Clone, Copy, PartialEq, Eq, Structural, Hash, Debug)]
pub struct StepId {
    /// The saga this step belongs to.
    pub saga_id: SagaId,
    /// Index of the step in the workflow.
    pub step_index: usize,
}

/// Peer ID identifying the origin of a saga.
pub type PeerId = [u8; 32];

/// The next value of `x`, staying put at the top of the range instead of
/// wrapping. Trace identifiers are drawn with this, so a saga that has
/// exhausted the 64-bit space stops growing rather than going backwards.
pub open spec fn bump(x: u64) -> u64 {
    if x == u64::MAX {
        u64::MAX
    } else {
        (x + 1) as u64
    }
}

/// The trace ID issued for a fresh event: never below the allocator's
/// cursor, and above the previous event's trace ID whenever the 64-bit
/// space allows it.
pub open spec fn fresh_trace(cursor: u64, prev: u64) -> u64 {
    if cursor > prev {
        cursor
    } else {
        bump(prev)
    }
}

/// Monotone trace IDs: any ID issued earlier lies strictly below the
/// allocator's cursor (`issue_above` leaves the cursor above what it
/// returns), and a fresh draw is never below the cursor — so every later
/// draw from the same allocator is strictly greater than every earlier
/// one, whatever previous trace ID it is asked to exceed.
pub proof fn lemma_trace_ids_strictly_increase(cursor: u64, earlier: u64, prev: u64)
    requires
        earlier < cursor,
    ensures
        fresh_trace(cursor, prev) > earlier,
{
}

/// Allocator of trace identifiers.
///
/// A host typically keeps one such allocator per process; every derived
/// context draws from it, so trace IDs observed within a saga strictly
/// increase for as long as the 64-bit space lasts.
pub struct TraceIdGen {
    cursor: u64,
}

impl TraceIdGen {
    /// The next trace ID this allocator would consider.
    pub closed spec fn cursor(self) -> u64 {
        self.cursor
    }

    /// Create an allocator that starts issuing at `start`.
    pub fn new(start: u64) -> (r: Self)
        ensures
            r.cursor() == start,
    {
        TraceIdGen { cursor: start }
    }

    /// Issue a trace ID above `prev` (when the space allows) and advance.
    pub fn issue_above(&mut self, prev: u64) -> (r: u64)
        ensures
            r == fresh_trace(old(self).cursor(), prev),
            final(self).cursor() == bump(r),
            prev < u64::MAX ==> r > prev,
            r >= prev,
            final(self).cursor() >= old(self).cursor(),
    {
        let fresh: u64 = if self.cursor > prev {
            self.cursor
        } else if prev == u64::MAX {
            u64::MAX
        } else {
            prev + 1
        };
        self.cursor = if fresh == u64::MAX {
            u64::MAX
        } else {
            fresh + 1
        };
        fresh
    }
}

/// Correlation context passed with every saga event.
#[derive(Clone, Debug)]
pub struct SagaContext {
    /// Unique saga execution identifier.
    pub saga_id: SagaId,
    /// Type of saga (e.g. an application-defined workflow name).
    pub saga_type: String,
    /// Name of the current step.
    pub step_name: String,
    /// Correlation ID linking all events in this saga.
    pub correlation_id: u64,
    /// Trace ID of the event that caused this one.
    pub causation_id: u64,
    /// Distributed tracing ID, fresh per event.
    pub trace_id: u64,
    /// Index of this step in the workflow.
    pub step_index: usize,
    /// Retry attempt number (0 = first attempt).
    pub attempt: u32,
    /// Peer ID of the saga initiator.
    pub initiator_peer_id: PeerId,
    /// When the saga started (millis since the UNIX epoch).
    pub saga_started_at_millis: u64,
    /// Timestamp of this event (millis since the UNIX epoch).
    pub event_timestamp_millis: u64,
}

impl SagaContext {
    /// Current time in milliseconds since the UNIX epoch.
    ///
    /// Relies on `std::time::SystemTime::now` and
    /// `SystemTime::duration_since`; the result depends on the wall clock,
    /// so nothing is claimed of it.
    #[verifier::external_body]
    pub fn now_millis() -> u64 {
        std::time::SystemTime::now()
            .duration_since(std::time::UNIX_EPOCH)
            .map(|d| d.as_millis() as u64)
            .unwrap_or(0)
    }

    /// An exact copy of this context.
    pub fn duplicate(&self) -> (r: Self)
        ensures
            r == *self,
    {
        SagaContext {
            saga_id: self.saga_id,
            saga_type: self.saga_type.clone(),
            step_name: self.step_name.clone(),
            correlation_id: self.correlation_id,
            causation_id: self.causation_id,
            trace_id: self.trace_id,
            step_index: self.step_index,
            attempt: self.attempt,
            initiator_peer_id: self.initiator_peer_id,
            saga_started_at_millis: self.saga_started_at_millis,
            event_timestamp_millis: self.event_timestamp_millis,
        }
    }

    /// Create a context for the next step in sequence: the causation ID
    /// rolls to this event's trace ID, a fresh trace ID is drawn, the step
    /// index advances, and the attempt counter resets.
    pub fn next_step(&self, step_name: String, gen: &mut TraceIdGen, now_millis: u64) -> (r: Self)
        requires
            self.step_index < usize::MAX,
        ensures
            r.saga_id == self.saga_id,
            r.saga_type == self.saga_type,
            r.step_name == step_name,
            r.correlation_id == self.correlation_id,
            r.causation_id == self.trace_id,
            r.trace_id == fresh_trace(old(gen).cursor(), self.trace_id),
            self.trace_id < u64::MAX ==> r.trace_id > self.trace_id,
            r.step_index == self.step_index + 1,
            r.attempt == 0,
            r.initiator_peer_id == self.initiator_peer_id,
            r.saga_started_at_millis == self.saga_started_at_millis,
            r.event_timestamp_millis == now_millis,
            final(gen).cursor() == bump(r.trace_id),
    {
        let trace_id = gen.issue_above(self.trace_id);
        SagaContext {
            saga_id: self.saga_id,
            saga_type: self.saga_type.clone(),
            step_name,
            correlation_id: self.correlation_id,
            causation_id: self.trace_id,
            trace_id,
            step_index: self.step_index + 1,
            attempt: 0,
            initiator_peer_id: self.initiator_peer_id,
            saga_started_at_millis: self.saga_started_at_millis,
            event_timestamp_millis: now_millis,
        }
    }

    /// Create a context for a retry attempt: same step, attempt counter
    /// incremented, fresh trace ID.
    pub fn retry(&self, gen: &mut TraceIdGen, now_millis: u64) -> (r: Self)
        requires
            self.attempt < u32::MAX,
        ensures
            r.saga_id == self.saga_id,
            r.saga_type == self.saga_type,
            r.step_name == self.step_name,
            r.correlation_id == self.correlation_id,
            r.causation_id == self.causation_id,
            r.trace_id == fresh_trace(old(gen).cursor(), self.trace_id),
            self.trace_id < u64::MAX ==> r.trace_id > self.trace_id,
            r.step_index == self.step_index,
            r.attempt == self.attempt + 1,
            r.initiator_peer_id == self.initiator_peer_id,
            r.saga_started_at_millis == self.saga_started_at_millis,
            r.event_timestamp_millis == now_millis,
            final(gen).cursor() == bump(r.trace_id),
    {
        let trace_id = gen.issue_above(self.trace_id);
        SagaContext {
            saga_id: self.saga_id,
            saga_type: self.saga_type.clone(),
            step_name: self.step_name.clone(),
            correlation_id: self.correlation_id,
            causation_id: self.causation_id,
            trace_id,
            step_index: self.step_index,
            attempt: self.attempt + 1,
            initiator_peer_id: self.initiator_peer_id,
            saga_started_at_millis: self.saga_started_at_millis,
            event_timestamp_millis: now_millis,
        }
    }

    /// Create a context for compensation: the causation ID rolls to this
    /// event's trace ID and a fresh trace ID is drawn.
    pub fn for_compensation(&self, gen: &mut TraceIdGen, now_millis: u64) -> (r: Self)
        ensures
            r.saga_id == self.saga_id,
            r.saga_type == self.saga_type,
            r.step_name == self.step_name,
            r.correlation_id == self.correlation_id,
            r.causation_id == self.trace_id,
            r.trace_id == fresh_trace(old(gen).cursor(), self.trace_id),
            self.trace_id < u64::MAX ==> r.trace_id > self.trace_id,
            r.step_index == self.step_index,
            r.attempt == self.attempt,
            r.initiator_peer_id == self.initiator_peer_id,
            r.saga_started_at_millis == self.saga_started_at_millis,
            r.event_timestamp_millis == now_millis,
            final(gen).cursor() == bump(r.trace_id),
    {
        let trace_id = gen.issue_above(self.trace_id);
        SagaContext {
            saga_id: self.saga_id,
            saga_type: self.saga_type.clone(),
            step_name: self.step_name.clone(),
            correlation_id: self.correlation_id,
            causation_id: self.trace_id,
            trace_id,
            step_index: self.step_index,
            attempt: self.attempt,
            initiator_peer_id: self.initiator_peer_id,
            saga_started_at_millis: self.saga_started_at_millis,
            event_timestamp_millis: now_millis,
        }
    }

    /// Elapsed time since the saga started, zero if the event predates it.
    pub fn elapsed_millis(&self) -> (r: u64)
        ensures
            r == if self.event_timestamp_millis >= self.saga_started_at_millis {
                (self.event_timestamp_millis - self.saga_started_at_millis) as u64
            } else {
                0u64
            },
    {
        if self.event_timestamp_millis >= self.saga_started_at_millis {
            self.event_timestamp_millis - self.saga_started_at_millis
        } else {
            0
        }
    }
}

} // verus!
