//! Typestate states for saga participants.
//!
//! Each lifecycle phase is a distinct type and every transition consumes the
//! state of the source phase and produces the state of the destination
//! phase, so an illegal transition does not compile. The phase graph is
//!
//! ```text
//! Idle -> Triggered -> Executing -> Completed -> Compensating -> Compensated
//!                                \-> Failed                   \-> Quarantined
//! ```
//!
//! with self-loops on Executing and Compensating for explicit retries.

use vstd::prelude::*;

use crate::context::{PeerId, SagaId};
use crate::events::ParticipantEvent;

verus! {

/// Marker for the types that stand for a step lifecycle phase.
pub trait StepState {

}

/// Marker for the phases a saga can never leave.
pub trait TerminalState: StepState {

}

/// No event concerning the step has been seen yet.
pub struct Idle;

/// The step's dependency was satisfied.
pub struct Triggered {
    /// When the step was triggered.
    pub triggered_at_millis: u64,
    /// The event that satisfied the dependency.
    pub triggering_event: String,
}

/// The step is executing.
pub struct Executing {
    /// When execution began.
    pub started_at_millis: u64,
    /// Attempt number, 1 on the first invocation.
    pub attempt: u32,
}

/// The step completed; its compensation data is retained.
pub struct Completed {
    /// When execution completed.
    pub completed_at_millis: u64,
    /// Output data of the step.
    pub output: Vec<u8>,
    /// Data retained to compensate the step.
    pub compensation_data: Vec<u8>,
}

/// The step failed for good.
pub struct Failed {
    /// When execution failed.
    pub failed_at_millis: u64,
    /// Error description.
    pub error: String,
    /// Whether predecessors must be compensated.
    pub requires_compensation: bool,
}

/// The step's compensation is running.
pub struct Compensating {
    /// When compensation began.
    pub started_at_millis: u64,
    /// Attempt number, 1 on the first invocation.
    pub attempt: u32,
}

/// The step's compensation completed.
pub struct Compensated {
    /// When compensation completed.
    pub completed_at_millis: u64,
}

/// Compensation could not complete safely; an operator must resolve.
pub struct Quarantined {
    /// When the step was quarantined.
    pub quarantined_at_millis: u64,
    /// Why the step was quarantined.
    pub reason: String,
}

impl StepState for Idle {

}

impl StepState for Triggered {

}

impl StepState for Executing {

}

impl StepState for Completed {

}

impl StepState for Failed {

}

impl StepState for Compensating {

}

impl StepState for Compensated {

}

impl StepState for Quarantined {

}

impl TerminalState for Compensated {

}

impl TerminalState for Quarantined {

}

/// A journal event paired with the moment it was recorded.
#[derive(Clone, Debug)]
pub struct TimestampedEvent {
    /// When the event was recorded (millis since the UNIX epoch).
    pub recorded_at_millis: u64,
    /// The recorded event.
    pub event: ParticipantEvent,
}

/// State container bundling a step's phase with the saga metadata.
pub struct SagaParticipantState<S: StepState> {
    /// The saga this state belongs to.
    pub saga_id: SagaId,
    /// Type of saga.
    pub saga_type: String,
    /// The step this participant handles.
    pub step_name: String,
    /// Correlation ID linking all events in this saga.
    pub correlation_id: u64,
    /// Trace ID of the event that created this state.
    pub trace_id: u64,
    /// Peer ID of the saga initiator.
    pub initiator_peer_id: PeerId,
    /// When the saga started (millis since the UNIX epoch).
    pub saga_started_at_millis: u64,
    /// When this state last changed.
    pub last_updated_at_millis: u64,
    /// The phase payload.
    pub state: S,
    /// In-memory tail cache of recorded events; the journal is authoritative.
    pub events: Vec<TimestampedEvent>,
}

/// The fields every transition carries over unchanged, from a state in
/// phase `S` to a state in phase `T`.
pub open spec fn carries_header<S: StepState, T: StepState>(
    a: SagaParticipantState<S>,
    b: SagaParticipantState<T>,
) -> bool {
    &&& b.saga_id == a.saga_id
    &&& b.saga_type == a.saga_type
    &&& b.step_name == a.step_name
    &&& b.correlation_id == a.correlation_id
    &&& b.trace_id == a.trace_id
    &&& b.initiator_peer_id == a.initiator_peer_id
    &&& b.saga_started_at_millis == a.saga_started_at_millis
    &&& b.events == a.events
}

impl SagaParticipantState<Idle> {
    /// Create a fresh Idle state for a saga.
    pub fn new(
        saga_id: SagaId,
        saga_type: String,
        step_name: String,
        correlation_id: u64,
        trace_id: u64,
        initiator_peer_id: PeerId,
        saga_started_at_millis: u64,
    ) -> (r: Self)
        ensures
            r.saga_id == saga_id,
            r.saga_type == saga_type,
            r.step_name == step_name,
            r.correlation_id == correlation_id,
            r.trace_id == trace_id,
            r.initiator_peer_id == initiator_peer_id,
            r.saga_started_at_millis == saga_started_at_millis,
            r.last_updated_at_millis == saga_started_at_millis,
            r.events@ =~= Seq::<TimestampedEvent>::empty(),
    {
        SagaParticipantState {
            saga_id,
            saga_type,
            step_name,
            correlation_id,
            trace_id,
            initiator_peer_id,
            saga_started_at_millis,
            last_updated_at_millis: saga_started_at_millis,
            state: Idle,
            events: Vec::new(),
        }
    }

    /// Idle -> Triggered: the step's dependency was satisfied.
    pub fn trigger(self, triggering_event: &str, now_millis: u64) -> (r: SagaParticipantState<
        Triggered,
    >)
        ensures
            carries_header(self, r),
            r.last_updated_at_millis == now_millis,
            r.state.triggered_at_millis == now_millis,
            r.state.triggering_event@ == triggering_event@,
    {
        SagaParticipantState {
            saga_id: self.saga_id,
            saga_type: self.saga_type,
            step_name: self.step_name,
            correlation_id: self.correlation_id,
            trace_id: self.trace_id,
            initiator_peer_id: self.initiator_peer_id,
            saga_started_at_millis: self.saga_started_at_millis,
            last_updated_at_millis: now_millis,
            state: Triggered {
                triggered_at_millis: now_millis,
                triggering_event: triggering_event.to_owned(),
            },
            events: self.events,
        }
    }
}

impl SagaParticipantState<Triggered> {
    /// Triggered -> Executing: the first execution attempt begins.
    pub fn start_execution(self, now_millis: u64) -> (r: SagaParticipantState<Executing>)
        ensures
            carries_header(self, r),
            r.last_updated_at_millis == now_millis,
            r.state.started_at_millis == now_millis,
            r.state.attempt == 1,
    {
        SagaParticipantState {
            saga_id: self.saga_id,
            saga_type: self.saga_type,
            step_name: self.step_name,
            correlation_id: self.correlation_id,
            trace_id: self.trace_id,
            initiator_peer_id: self.initiator_peer_id,
            saga_started_at_millis: self.saga_started_at_millis,
            last_updated_at_millis: now_millis,
            state: Executing { started_at_millis: now_millis, attempt: 1 },
            events: self.events,
        }
    }
}

impl SagaParticipantState<Executing> {
    /// Executing -> Completed: the step succeeded.
    pub fn complete(self, output: Vec<u8>, compensation_data: Vec<u8>, now_millis: u64) -> (r:
        SagaParticipantState<Completed>)
        ensures
            carries_header(self, r),
            r.last_updated_at_millis == now_millis,
            r.state.completed_at_millis == now_millis,
            r.state.output == output,
            r.state.compensation_data == compensation_data,
    {
        SagaParticipantState {
            saga_id: self.saga_id,
            saga_type: self.saga_type,
            step_name: self.step_name,
            correlation_id: self.correlation_id,
            trace_id: self.trace_id,
            initiator_peer_id: self.initiator_peer_id,
            saga_started_at_millis: self.saga_started_at_millis,
            last_updated_at_millis: now_millis,
            state: Completed { completed_at_millis: now_millis, output, compensation_data },
            events: self.events,
        }
    }

    /// Executing -> Failed: the step failed for good.
    pub fn fail(self, error: String, requires_compensation: bool, now_millis: u64) -> (r:
        SagaParticipantState<Failed>)
        ensures
            carries_header(self, r),
            r.last_updated_at_millis == now_millis,
            r.state.failed_at_millis == now_millis,
            r.state.error == error,
            r.state.requires_compensation == requires_compensation,
    {
        SagaParticipantState {
            saga_id: self.saga_id,
            saga_type: self.saga_type,
            step_name: self.step_name,
            correlation_id: self.correlation_id,
            trace_id: self.trace_id,
            initiator_peer_id: self.initiator_peer_id,
            saga_started_at_millis: self.saga_started_at_millis,
            last_updated_at_millis: now_millis,
            state: Failed { failed_at_millis: now_millis, error, requires_compensation },
            events: self.events,
        }
    }

    /// Executing -> Executing: an explicit retry; only this constructs a
    /// later attempt.
    pub fn retry_execution(self, now_millis: u64) -> (r: SagaParticipantState<Executing>)
        requires
            self.state.attempt < u32::MAX,
        ensures
            carries_header(self, r),
            r.last_updated_at_millis == now_millis,
            r.state.started_at_millis == now_millis,
            r.state.attempt == self.state.attempt + 1,
    {
        let attempt = self.state.attempt + 1;
        SagaParticipantState {
            saga_id: self.saga_id,
            saga_type: self.saga_type,
            step_name: self.step_name,
            correlation_id: self.correlation_id,
            trace_id: self.trace_id,
            initiator_peer_id: self.initiator_peer_id,
            saga_started_at_millis: self.saga_started_at_millis,
            last_updated_at_millis: now_millis,
            state: Executing { started_at_millis: now_millis, attempt },
            events: self.events,
        }
    }
}

impl SagaParticipantState<Completed> {
    /// Completed -> Compensating: compensation of this step begins.
    pub fn start_compensation(self, now_millis: u64) -> (r: SagaParticipantState<Compensating>)
        ensures
            carries_header(self, r),
            r.last_updated_at_millis == now_millis,
            r.state.started_at_millis == now_millis,
            r.state.attempt == 1,
    {
        SagaParticipantState {
            saga_id: self.saga_id,
            saga_type: self.saga_type,
            step_name: self.step_name,
            correlation_id: self.correlation_id,
            trace_id: self.trace_id,
            initiator_peer_id: self.initiator_peer_id,
            saga_started_at_millis: self.saga_started_at_millis,
            last_updated_at_millis: now_millis,
            state: Compensating { started_at_millis: now_millis, attempt: 1 },
            events: self.events,
        }
    }
}

impl SagaParticipantState<Compensating> {
    /// Compensating -> Compensated: the compensation succeeded.
    pub fn complete_compensation(self, now_millis: u64) -> (r: SagaParticipantState<Compensated>)
        ensures
            carries_header(self, r),
            r.last_updated_at_millis == now_millis,
            r.state.completed_at_millis == now_millis,
    {
        SagaParticipantState {
            saga_id: self.saga_id,
            saga_type: self.saga_type,
            step_name: self.step_name,
            correlation_id: self.correlation_id,
            trace_id: self.trace_id,
            initiator_peer_id: self.initiator_peer_id,
            saga_started_at_millis: self.saga_started_at_millis,
            last_updated_at_millis: now_millis,
            state: Compensated { completed_at_millis: now_millis },
            events: self.events,
        }
    }

    /// Compensating -> Quarantined: the compensation cannot complete
    /// safely; an operator must resolve.
    pub fn quarantine(self, reason: String, now_millis: u64) -> (r: SagaParticipantState<
        Quarantined,
    >)
        ensures
            carries_header(self, r),
            r.last_updated_at_millis == now_millis,
            r.state.quarantined_at_millis == now_millis,
            r.state.reason == reason,
    {
        SagaParticipantState {
            saga_id: self.saga_id,
            saga_type: self.saga_type,
            step_name: self.step_name,
            correlation_id: self.correlation_id,
            trace_id: self.trace_id,
            initiator_peer_id: self.initiator_peer_id,
            saga_started_at_millis: self.saga_started_at_millis,
            last_updated_at_millis: now_millis,
            state: Quarantined { quarantined_at_millis: now_millis, reason },
            events: self.events,
        }
    }

    /// Compensating -> Compensating: an explicit retry after a failure
    /// that left no effect behind.
    pub fn retry_compensation(self, now_millis: u64) -> (r: SagaParticipantState<Compensating>)
        requires
            self.state.attempt < u32::MAX,
        ensures
            carries_header(self, r),
            r.last_updated_at_millis == now_millis,
            r.state.started_at_millis == now_millis,
            r.state.attempt == self.state.attempt + 1,
    {
        let attempt = self.state.attempt + 1;
        SagaParticipantState {
            saga_id: self.saga_id,
            saga_type: self.saga_type,
            step_name: self.step_name,
            correlation_id: self.correlation_id,
            trace_id: self.trace_id,
            initiator_peer_id: self.initiator_peer_id,
            saga_started_at_millis: self.saga_started_at_millis,
            last_updated_at_millis: now_millis,
            state: Compensating { started_at_millis: now_millis, attempt },
            events: self.events,
        }
    }
}

/// The eight lifecycle phases, as plain tags.
#[derive(Clone, Copy, PartialEq, Eq, Structural, Debug)]
pub enum Phase {
    /// No event concerning the step has been seen yet.
    Idle,
    /// The step's dependency was satisfied.
    Triggered,
    /// The step is executing.
    Executing,
    /// The step completed.
    Completed,
    /// The step failed for good.
    Failed,
    /// The step's compensation is running.
    Compensating,
    /// The step's compensation completed.
    Compensated,
    /// An operator must resolve the saga at this step.
    Quarantined,
}

/// Whether the phase graph has an edge from `a` to `b`.
pub open spec fn legal_edge(a: Phase, b: Phase) -> bool {
    ||| (a is Idle && b is Triggered)
    ||| (a is Triggered && b is Executing)
    ||| (a is Executing && b is Completed)
    ||| (a is Executing && b is Failed)
    ||| (a is Completed && b is Compensating)
    ||| (a is Compensating && b is Compensated)
    ||| (a is Compensating && b is Quarantined)
}

/// Whether `b` can be reached from `a` by staying put or by following
/// edges of the phase graph.
pub open spec fn phase_reachable(a: Phase, b: Phase) -> bool {
    a == b || match a {
        Phase::Idle => !(b is Idle),
        Phase::Triggered => b is Executing || b is Completed || b is Failed || b is Compensating
            || b is Compensated || b is Quarantined,
        Phase::Executing => b is Completed || b is Failed || b is Compensating || b is Compensated
            || b is Quarantined,
        Phase::Completed => b is Compensating || b is Compensated || b is Quarantined,
        Phase::Failed => false,
        Phase::Compensating => b is Compensated || b is Quarantined,
        Phase::Compensated => false,
        Phase::Quarantined => false,
    }
}

/// Reachability extends along every edge of the phase graph: it contains
/// the edges and is closed under composition.
pub proof fn lemma_phase_reachable_closure(a: Phase, b: Phase, c: Phase)
    ensures
        legal_edge(a, b) ==> phase_reachable(a, b),
        phase_reachable(a, b) && phase_reachable(b, c) ==> phase_reachable(a, c),
{
}

/// Type-erased state entry, one variant per phase, for keyed storage.
pub enum SagaStateEntry {
    /// A state in phase Idle.
    Idle(SagaParticipantState<Idle>),
    /// A state in phase Triggered.
    Triggered(SagaParticipantState<Triggered>),
    /// A state in phase Executing.
    Executing(SagaParticipantState<Executing>),
    /// A state in phase Completed.
    Completed(SagaParticipantState<Completed>),
    /// A state in phase Failed.
    Failed(SagaParticipantState<Failed>),
    /// A state in phase Compensating.
    Compensating(SagaParticipantState<Compensating>),
    /// A state in phase Compensated.
    Compensated(SagaParticipantState<Compensated>),
    /// A state in phase Quarantined.
    Quarantined(SagaParticipantState<Quarantined>),
}

impl SagaStateEntry {
    /// The phase of this entry, as a spec value.
    pub open spec fn phase_view(&self) -> Phase {
        match self {
            SagaStateEntry::Idle(_) => Phase::Idle,
            SagaStateEntry::Triggered(_) => Phase::Triggered,
            SagaStateEntry::Executing(_) => Phase::Executing,
            SagaStateEntry::Completed(_) => Phase::Completed,
            SagaStateEntry::Failed(_) => Phase::Failed,
            SagaStateEntry::Compensating(_) => Phase::Compensating,
            SagaStateEntry::Compensated(_) => Phase::Compensated,
            SagaStateEntry::Quarantined(_) => Phase::Quarantined,
        }
    }

    /// The saga this entry belongs to, as a spec value.
    pub open spec fn saga_id_view(&self) -> SagaId {
        match self {
            SagaStateEntry::Idle(s) => s.saga_id,
            SagaStateEntry::Triggered(s) => s.saga_id,
            SagaStateEntry::Executing(s) => s.saga_id,
            SagaStateEntry::Completed(s) => s.saga_id,
            SagaStateEntry::Failed(s) => s.saga_id,
            SagaStateEntry::Compensating(s) => s.saga_id,
            SagaStateEntry::Compensated(s) => s.saga_id,
            SagaStateEntry::Quarantined(s) => s.saga_id,
        }
    }

    /// The step name this entry carries, as a spec value.
    pub open spec fn step_name_view(&self) -> Seq<char> {
        match self {
            SagaStateEntry::Idle(s) => s.step_name@,
            SagaStateEntry::Triggered(s) => s.step_name@,
            SagaStateEntry::Executing(s) => s.step_name@,
            SagaStateEntry::Completed(s) => s.step_name@,
            SagaStateEntry::Failed(s) => s.step_name@,
            SagaStateEntry::Compensating(s) => s.step_name@,
            SagaStateEntry::Compensated(s) => s.step_name@,
            SagaStateEntry::Quarantined(s) => s.step_name@,
        }
    }

    /// When this entry last changed, as a spec value.
    pub open spec fn last_updated_view(&self) -> u64 {
        match self {
            SagaStateEntry::Idle(s) => s.last_updated_at_millis,
            SagaStateEntry::Triggered(s) => s.last_updated_at_millis,
            SagaStateEntry::Executing(s) => s.last_updated_at_millis,
            SagaStateEntry::Completed(s) => s.last_updated_at_millis,
            SagaStateEntry::Failed(s) => s.last_updated_at_millis,
            SagaStateEntry::Compensating(s) => s.last_updated_at_millis,
            SagaStateEntry::Compensated(s) => s.last_updated_at_millis,
            SagaStateEntry::Quarantined(s) => s.last_updated_at_millis,
        }
    }

    /// The phase of this entry.
    pub fn phase(&self) -> (r: Phase)
        ensures
            r == self.phase_view(),
    {
        match self {
            SagaStateEntry::Idle(_) => Phase::Idle,
            SagaStateEntry::Triggered(_) => Phase::Triggered,
            SagaStateEntry::Executing(_) => Phase::Executing,
            SagaStateEntry::Completed(_) => Phase::Completed,
            SagaStateEntry::Failed(_) => Phase::Failed,
            SagaStateEntry::Compensating(_) => Phase::Compensating,
            SagaStateEntry::Compensated(_) => Phase::Compensated,
            SagaStateEntry::Quarantined(_) => Phase::Quarantined,
        }
    }

    /// The saga this entry belongs to.
    pub fn saga_id(&self) -> (r: SagaId)
        ensures
            r == self.saga_id_view(),
    {
        match self {
            SagaStateEntry::Idle(s) => s.saga_id,
            SagaStateEntry::Triggered(s) => s.saga_id,
            SagaStateEntry::Executing(s) => s.saga_id,
            SagaStateEntry::Completed(s) => s.saga_id,
            SagaStateEntry::Failed(s) => s.saga_id,
            SagaStateEntry::Compensating(s) => s.saga_id,
            SagaStateEntry::Compensated(s) => s.saga_id,
            SagaStateEntry::Quarantined(s) => s.saga_id,
        }
    }

    /// When this entry last changed.
    pub fn last_updated_at_millis(&self) -> (r: u64)
        ensures
            r == self.last_updated_view(),
    {
        match self {
            SagaStateEntry::Idle(s) => s.last_updated_at_millis,
            SagaStateEntry::Triggered(s) => s.last_updated_at_millis,
            SagaStateEntry::Executing(s) => s.last_updated_at_millis,
            SagaStateEntry::Completed(s) => s.last_updated_at_millis,
            SagaStateEntry::Failed(s) => s.last_updated_at_millis,
            SagaStateEntry::Compensating(s) => s.last_updated_at_millis,
            SagaStateEntry::Compensated(s) => s.last_updated_at_millis,
            SagaStateEntry::Quarantined(s) => s.last_updated_at_millis,
        }
    }

    /// Whether this entry's phase is terminal (Compensated or Quarantined).
    pub fn is_terminal(&self) -> (r: bool)
        ensures
            r == (self.phase_view() is Compensated || self.phase_view() is Quarantined),
    {
        match self {
            SagaStateEntry::Compensated(_) => true,
            SagaStateEntry::Quarantined(_) => true,
            _ => false,
        }
    }

    /// The step name this entry carries.
    pub fn step_name(&self) -> (r: &str)
        ensures
            r@ == self.step_name_view(),
    {
        match self {
            SagaStateEntry::Idle(s) => s.step_name.as_str(),
            SagaStateEntry::Triggered(s) => s.step_name.as_str(),
            SagaStateEntry::Executing(s) => s.step_name.as_str(),
            SagaStateEntry::Completed(s) => s.step_name.as_str(),
            SagaStateEntry::Failed(s) => s.step_name.as_str(),
            SagaStateEntry::Compensating(s) => s.step_name.as_str(),
            SagaStateEntry::Compensated(s) => s.step_name.as_str(),
            SagaStateEntry::Quarantined(s) => s.step_name.as_str(),
        }
    }
}

} // verus!
