//! A choreography-based saga runtime core for actor systems.
//!
//! A saga is a long-running, multi-step business transaction distributed
//! across independent participants; each step has a compensating action.
//! With choreography there is no central coordinator: every participant
//! reacts to published events and advances the saga by its local knowledge.
//!
//! This crate holds the participant runtime: the typestate step lifecycle,
//! event-driven dependency resolution, the journal used for crash recovery,
//! idempotent event consumption, and the compensation protocol including
//! quarantine of ambiguous failures. The host process supplies the clock,
//! the transport, and the timers; the runtime hands it the events to publish
//! and the retries to schedule as plain values.

mod context;
mod dedupe;
mod u64map;
mod decimal;
mod errors;
mod events;
mod idempotency;
mod journal;
mod observer;
mod recovery;
mod runtime;
mod state;
mod stats;
mod traits;

pub use context::{lemma_trace_ids_strictly_increase, PeerId, SagaContext, SagaId, StepId, TraceIdGen};
pub use decimal::u64_to_dec;
pub use dedupe::{dedupe_key, DedupeError, InMemoryDedupe, ParticipantDedupeStore};
pub use errors::{CompensationError, StepError, StepOutput};
pub use idempotency::IdempotencyKey;
pub use journal::{InMemoryJournal, JournalEntry, JournalError, ParticipantJournal};
pub use observer::{NoOpObserver, SagaObserver};
pub use recovery::{rebuild_state, recover_sagas, RebuiltState};
pub use runtime::{
    lemma_compensation_at_most_once,
    compensate_wrapper, complete_compensation, complete_step, execute_step_wrapper,
    fail_compensation, fail_step, handle_saga_event, retry_compensation, retry_step,
    DispatchOutcome, ParticipantConfig, ParticipantCore, RetryDirective,
};
pub use stats::{ParticipantStats, ParticipantStatsSnapshot};
pub use traits::{DependencySpec, RetryPolicy, SagaParticipant};
pub use events::{AckStatus, ParticipantEvent, SagaChoreographyEvent};
pub use state::{
    Compensated, Compensating, Completed, Executing, Failed, Idle, Phase, Quarantined,
    SagaParticipantState, SagaStateEntry, StepState, TerminalState, TimestampedEvent, Triggered,
};

use vstd::prelude::*;

verus! {

} // verus!
