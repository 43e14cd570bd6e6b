//! Wire events published between participants and the local journal events.

use vstd::prelude::*;
use vstd::string::StringExecFns;

use crate::context::{PeerId, SagaContext};

verus! {

/// Events published between participants over the saga topic.
#[derive(Clone, Debug)]
pub enum SagaChoreographyEvent {
    /// A saga began; carries the initial payload.
    SagaStarted {
        /// Correlation context.
        context: SagaContext,
        /// Initial payload handed to the first step.
        payload: Vec<u8>,
    },
    /// The saga reached its successful end.
    SagaCompleted {
        /// Correlation context.
        context: SagaContext,
    },
    /// The saga failed for good.
    SagaFailed {
        /// Correlation context.
        context: SagaContext,
        /// Why the saga failed.
        reason: String,
    },
    /// A step began executing.
    StepStarted {
        /// Correlation context.
        context: SagaContext,
    },
    /// A step finished; its output feeds dependent steps.
    StepCompleted {
        /// Correlation context.
        context: SagaContext,
        /// Output data of the step.
        output: Vec<u8>,
        /// Whether the step retained data to compensate itself.
        compensation_available: bool,
    },
    /// A step failed.
    StepFailed {
        /// Correlation context.
        context: SagaContext,
        /// Error description.
        error: String,
        /// Whether a retry is scheduled.
        will_retry: bool,
        /// Whether predecessors must be compensated.
        requires_compensation: bool,
    },
    /// Compensation of the named steps is requested.
    CompensationRequested {
        /// Correlation context.
        context: SagaContext,
        /// The step whose failure triggered compensation.
        failed_step: String,
        /// Why compensation is requested.
        reason: String,
        /// The steps that must compensate.
        steps_to_compensate: Vec<String>,
    },
    /// A participant began compensating.
    CompensationStarted {
        /// Correlation context.
        context: SagaContext,
    },
    /// A participant finished compensating.
    CompensationCompleted {
        /// Correlation context.
        context: SagaContext,
    },
    /// A compensation attempt failed.
    CompensationFailed {
        /// Correlation context.
        context: SagaContext,
        /// Error description.
        error: String,
        /// Whether the effect may have partially applied.
        is_ambiguous: bool,
    },
    /// The saga was quarantined; an operator must resolve it.
    SagaQuarantined {
        /// Correlation context.
        context: SagaContext,
        /// Why the saga was quarantined.
        reason: String,
        /// The step that was quarantined.
        step: String,
    },
    /// Acknowledgment of an event by a participant.
    StepAck {
        /// Correlation context.
        context: SagaContext,
        /// The acknowledging participant.
        participant_id: PeerId,
        /// What the participant did with the event.
        status: AckStatus,
    },
}

impl SagaChoreographyEvent {
    /// The correlation context this event carries, as a spec value.
    pub open spec fn context_view(&self) -> SagaContext {
        match self {
            SagaChoreographyEvent::SagaStarted { context, .. } => *context,
            SagaChoreographyEvent::SagaCompleted { context } => *context,
            SagaChoreographyEvent::SagaFailed { context, .. } => *context,
            SagaChoreographyEvent::StepStarted { context } => *context,
            SagaChoreographyEvent::StepCompleted { context, .. } => *context,
            SagaChoreographyEvent::StepFailed { context, .. } => *context,
            SagaChoreographyEvent::CompensationRequested { context, .. } => *context,
            SagaChoreographyEvent::CompensationStarted { context } => *context,
            SagaChoreographyEvent::CompensationCompleted { context } => *context,
            SagaChoreographyEvent::CompensationFailed { context, .. } => *context,
            SagaChoreographyEvent::SagaQuarantined { context, .. } => *context,
            SagaChoreographyEvent::StepAck { context, .. } => *context,
        }
    }

    /// The correlation context this event carries.
    pub fn context(&self) -> (r: &SagaContext)
        ensures
            *r == self.context_view(),
    {
        match self {
            SagaChoreographyEvent::SagaStarted { context, .. } => context,
            SagaChoreographyEvent::SagaCompleted { context } => context,
            SagaChoreographyEvent::SagaFailed { context, .. } => context,
            SagaChoreographyEvent::StepStarted { context } => context,
            SagaChoreographyEvent::StepCompleted { context, .. } => context,
            SagaChoreographyEvent::CompensationRequested { context, .. } => context,
            SagaChoreographyEvent::CompensationStarted { context } => context,
            SagaChoreographyEvent::CompensationCompleted { context } => context,
            SagaChoreographyEvent::CompensationFailed { context, .. } => context,
            SagaChoreographyEvent::SagaQuarantined { context, .. } => context,
            SagaChoreographyEvent::StepAck { context, .. } => context,
            SagaChoreographyEvent::StepFailed { context, .. } => context,
        }
    }

    /// The tag naming this event's kind, as a spec value.
    pub open spec fn event_type_view(&self) -> Seq<char> {
        match self {
            SagaChoreographyEvent::SagaStarted { .. } => "saga_started"@,
            SagaChoreographyEvent::SagaCompleted { .. } => "saga_completed"@,
            SagaChoreographyEvent::SagaFailed { .. } => "saga_failed"@,
            SagaChoreographyEvent::StepStarted { .. } => "step_started"@,
            SagaChoreographyEvent::StepCompleted { .. } => "step_completed"@,
            SagaChoreographyEvent::StepFailed { .. } => "step_failed"@,
            SagaChoreographyEvent::CompensationRequested { .. } => "compensation_requested"@,
            SagaChoreographyEvent::CompensationStarted { .. } => "compensation_started"@,
            SagaChoreographyEvent::CompensationCompleted { .. } => "compensation_completed"@,
            SagaChoreographyEvent::CompensationFailed { .. } => "compensation_failed"@,
            SagaChoreographyEvent::SagaQuarantined { .. } => "saga_quarantined"@,
            SagaChoreographyEvent::StepAck { .. } => "step_ack"@,
        }
    }

    /// The tag naming this event's kind.
    pub fn event_type(&self) -> (r: &'static str)
        ensures
            r@ == self.event_type_view(),
    {
        match self {
            SagaChoreographyEvent::SagaStarted { .. } => "saga_started",
            SagaChoreographyEvent::SagaCompleted { .. } => "saga_completed",
            SagaChoreographyEvent::SagaFailed { .. } => "saga_failed",
            SagaChoreographyEvent::StepStarted { .. } => "step_started",
            SagaChoreographyEvent::StepCompleted { .. } => "step_completed",
            SagaChoreographyEvent::StepFailed { .. } => "step_failed",
            SagaChoreographyEvent::CompensationRequested { .. } => "compensation_requested",
            SagaChoreographyEvent::CompensationStarted { .. } => "compensation_started",
            SagaChoreographyEvent::CompensationCompleted { .. } => "compensation_completed",
            SagaChoreographyEvent::CompensationFailed { .. } => "compensation_failed",
            SagaChoreographyEvent::SagaQuarantined { .. } => "saga_quarantined",
            SagaChoreographyEvent::StepAck { .. } => "step_ack",
        }
    }

    /// The transport topic for a saga type.
    pub fn topic(saga_type: &str) -> (r: String)
        ensures
            r@ == "saga:"@ + saga_type@,
    {
        String::from_str("saga:").concat(saga_type)
    }
}

/// Acknowledgment status carried by a `StepAck` event.
#[derive(Clone, Debug)]
pub enum AckStatus {
    /// The event was accepted for processing.
    Accepted,
    /// The step already completed.
    Completed,
    /// The step failed.
    Failed,
    /// The event does not concern this participant.
    NotApplicable,
    /// The participant is already processing this saga.
    AlreadyProcessing,
}

/// An exact copy of a byte vector.
pub fn clone_bytes(v: &Vec<u8>) -> (r: Vec<u8>)
    ensures
        r@ == v@,
{
    let r = v.clone();
    proof {
        assert(r@ =~= v@);
    }
    r
}

/// The views of a list of strings.
pub open spec fn str_views(list: Seq<String>) -> Seq<Seq<char>> {
    list.map_values(|s: String| s@)
}

/// An exact copy of a list of strings.
pub fn clone_strings(list: &Vec<String>) -> (r: Vec<String>)
    ensures
        r@ == list@,
{
    let n = list.len();
    let mut out: Vec<String> = Vec::new();
    let mut idx: usize = 0;
    while idx < n
        invariant
            n == list@.len(),
            idx <= n,
            out@.len() == idx,
            forall|j: int| 0 <= j < idx ==> out@[j] == (#[trigger] list@[j]),
        decreases n - idx,
    {
        out.push(list[idx].clone());
        idx = idx + 1;
    }
    proof {
        assert(out@ =~= list@);
    }
    out
}

/// Whether `list` holds a string whose view is `s@`.
pub fn vec_contains_string(list: &Vec<String>, s: &String) -> (r: bool)
    ensures
        r == str_views(list@).contains(s@),
{
    let n = list.len();
    let mut idx: usize = 0;
    while idx < n
        invariant
            n == list@.len(),
            idx <= n,
            forall|j: int| 0 <= j < idx ==> (#[trigger] list@[j])@ != s@,
        decreases n - idx,
    {
        if list[idx] == *s {
            proof {
                assert(str_views(list@)[idx as int] == s@);
            }
            return true;
        }
        idx = idx + 1;
    }
    proof {
        assert forall|j: int| 0 <= j < str_views(list@).len() implies #[trigger] str_views(
            list@,
        )[j] != s@ by {
            assert(str_views(list@)[j] == list@[j]@);
        }
    }
    false
}

/// Events stored in a participant's local journal: the local source of
/// truth that recovery replays.
#[derive(Clone, Debug)]
#[verifier::ext_equal]
pub enum ParticipantEvent {
    /// The participant learned of a saga.
    SagaRegistered {
        /// Type of saga.
        saga_type: String,
        /// The step this participant handles.
        step_name: String,
        /// When the saga was registered (millis since the UNIX epoch).
        registered_at_millis: u64,
    },
    /// The step's dependency was satisfied.
    StepTriggered {
        /// The event that satisfied the dependency.
        triggering_event: String,
        /// When the step was triggered.
        triggered_at_millis: u64,
    },
    /// Step execution began.
    StepExecutionStarted {
        /// Attempt number, 1 on the first invocation.
        attempt: u32,
        /// When execution began.
        started_at_millis: u64,
    },
    /// Step execution succeeded.
    StepExecutionCompleted {
        /// Output data of the step.
        output: Vec<u8>,
        /// Data retained to compensate the step.
        compensation_data: Vec<u8>,
        /// When execution completed.
        completed_at_millis: u64,
    },
    /// Step execution failed for good.
    StepExecutionFailed {
        /// Error description.
        error: String,
        /// Whether predecessors must be compensated.
        requires_compensation: bool,
        /// When execution failed.
        failed_at_millis: u64,
    },
    /// Compensation began.
    CompensationStarted {
        /// Attempt number, 1 on the first invocation.
        attempt: u32,
        /// When compensation began.
        started_at_millis: u64,
    },
    /// Compensation succeeded.
    CompensationCompleted {
        /// When compensation completed.
        completed_at_millis: u64,
    },
    /// A compensation attempt failed.
    CompensationFailed {
        /// Error description.
        error: String,
        /// Whether the effect may have partially applied.
        is_ambiguous: bool,
        /// When the attempt failed.
        failed_at_millis: u64,
    },
    /// The saga was quarantined at this participant.
    Quarantined {
        /// Why the saga was quarantined.
        reason: String,
        /// When it was quarantined.
        quarantined_at_millis: u64,
    },
}


/// Whether `e` records the start of execution attempt `attempt` at `at`.
pub open spec fn is_exec_started(e: ParticipantEvent, attempt: u32, at: u64) -> bool {
    e matches ParticipantEvent::StepExecutionStarted { attempt: a, started_at_millis: t } && a
        == attempt && t == at
}

/// Whether `e` records a successful execution with the given data at `at`.
pub open spec fn is_exec_completed(e: ParticipantEvent, output: Seq<u8>, comp: Seq<u8>, at: u64) -> bool {
    e matches ParticipantEvent::StepExecutionCompleted {
        output: o,
        compensation_data: c,
        completed_at_millis: t,
    } && o@ == output && c@ == comp && t == at
}

/// Whether `e` records a final execution failure at `at`.
pub open spec fn is_exec_failed(e: ParticipantEvent, error: Seq<char>, req: bool, at: u64) -> bool {
    e matches ParticipantEvent::StepExecutionFailed {
        error: m,
        requires_compensation: rc,
        failed_at_millis: t,
    } && m@ == error && rc == req && t == at
}

/// Whether `e` records the start of compensation attempt `attempt` at `at`.
pub open spec fn is_comp_started(e: ParticipantEvent, attempt: u32, at: u64) -> bool {
    e matches ParticipantEvent::CompensationStarted { attempt: a, started_at_millis: t } && a
        == attempt && t == at
}

/// Whether `e` records a successful compensation at `at`.
pub open spec fn is_comp_completed(e: ParticipantEvent, at: u64) -> bool {
    e matches ParticipantEvent::CompensationCompleted { completed_at_millis: t } && t == at
}

/// Whether `e` records a quarantine with the given reason at `at`.
pub open spec fn is_quarantined(e: ParticipantEvent, reason: Seq<char>, at: u64) -> bool {
    e matches ParticipantEvent::Quarantined { reason: m, quarantined_at_millis: t } && m@ == reason
        && t == at
}

} // verus!
