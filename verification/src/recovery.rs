//! Rebuilding saga state from the journal on startup.
//!
//! The journal is the local source of truth: folding a saga's entries in
//! order, latest transition marker winning, yields the state the
//! participant last persisted. Sagas whose rebuilt state is not terminal
//! are the ones a host re-arms after a crash.

use vstd::prelude::*;

use crate::context::SagaId;
use crate::events::ParticipantEvent;
use crate::journal::{JournalEntry, JournalError, ParticipantJournal};

verus! {

/// State of a saga as rebuilt from its journal.
#[derive(Clone, Copy, PartialEq, Eq, Structural, Debug)]
pub enum RebuiltState {
    /// No transition marker seen.
    Unknown,
    /// The last marker was the start of an execution attempt.
    Executing,
    /// The last marker was a successful execution.
    Completed,
    /// The last marker was a failure that requires compensation.
    FailedNeedsCompensation,
    /// The last marker was a failure without compensation.
    FailedTerminal,
    /// The last marker was the start of a compensation attempt.
    Compensating,
    /// The last marker was a successful compensation.
    Compensated,
    /// The last marker was a quarantine.
    Quarantined,
}

/// The rebuilt state a single journal event leaves behind: transition
/// markers overwrite the accumulator, anything else keeps it.
pub open spec fn step_rebuilt(acc: RebuiltState, e: ParticipantEvent) -> RebuiltState {
    match e {
        ParticipantEvent::StepExecutionStarted { .. } => RebuiltState::Executing,
        ParticipantEvent::StepExecutionCompleted { .. } => RebuiltState::Completed,
        ParticipantEvent::StepExecutionFailed { requires_compensation, .. } => {
            if requires_compensation {
                RebuiltState::FailedNeedsCompensation
            } else {
                RebuiltState::FailedTerminal
            }
        },
        ParticipantEvent::CompensationStarted { .. } => RebuiltState::Compensating,
        ParticipantEvent::CompensationCompleted { .. } => RebuiltState::Compensated,
        ParticipantEvent::Quarantined { .. } => RebuiltState::Quarantined,
        _ => acc,
    }
}

/// Whether `e` is a transition marker, i.e. determines the rebuilt state
/// by itself.
pub open spec fn is_marker(e: ParticipantEvent) -> bool {
    ||| e is StepExecutionStarted
    ||| e is StepExecutionCompleted
    ||| e is StepExecutionFailed
    ||| e is CompensationStarted
    ||| e is CompensationCompleted
    ||| e is Quarantined
}

/// The state that folding `entries` in order yields, latest marker
/// winning.
pub open spec fn rebuilt_of(entries: Seq<JournalEntry>) -> RebuiltState
    decreases entries.len(),
{
    if entries.len() == 0 {
        RebuiltState::Unknown
    } else {
        step_rebuilt(rebuilt_of(entries.drop_last()), entries.last().event)
    }
}

/// Journal prefix recoverability: appending an entry to any journal
/// prefix rebuilds to exactly the state that entry persists — a marker
/// overwrites whatever came before it, anything else leaves the rebuilt
/// state of the prefix untouched. With `rebuild_state`'s postcondition
/// this says that replaying `read(saga_id)` always yields the state the
/// participant last persisted, whatever was journalled before.
pub proof fn lemma_journal_prefix_recoverability(prefix: Seq<JournalEntry>, e: JournalEntry)
    ensures
        is_marker(e.event) ==> rebuilt_of(prefix.push(e)) == step_rebuilt(
            RebuiltState::Unknown,
            e.event,
        ),
        !is_marker(e.event) ==> rebuilt_of(prefix.push(e)) == rebuilt_of(prefix),
{
    assert(prefix.push(e).drop_last() =~= prefix);
}

/// The rebuilt state that one state-table entry should correspond to:
/// what folding the journal must yield for a saga the dispatcher tracks.
/// Idle and Triggered precede the first persisted marker.
pub open spec fn entry_rebuilt_image(e: crate::state::SagaStateEntry) -> RebuiltState {
    match e {
        crate::state::SagaStateEntry::Idle(_) => RebuiltState::Unknown,
        crate::state::SagaStateEntry::Triggered(_) => RebuiltState::Unknown,
        crate::state::SagaStateEntry::Executing(_) => RebuiltState::Executing,
        crate::state::SagaStateEntry::Completed(_) => RebuiltState::Completed,
        crate::state::SagaStateEntry::Failed(s) => {
            if s.state.requires_compensation {
                RebuiltState::FailedNeedsCompensation
            } else {
                RebuiltState::FailedTerminal
            }
        },
        crate::state::SagaStateEntry::Compensating(_) => RebuiltState::Compensating,
        crate::state::SagaStateEntry::Compensated(_) => RebuiltState::Compensated,
        crate::state::SagaStateEntry::Quarantined(_) => RebuiltState::Quarantined,
    }
}

impl RebuiltState {
    /// Whether this rebuilt state is terminal, as a spec value. A saga in
    /// a terminal rebuilt state is pruned rather than re-armed.
    pub open spec fn is_terminal_view(&self) -> bool {
        ||| self is Completed
        ||| self is FailedTerminal
        ||| self is Compensated
        ||| self is Quarantined
    }

    /// Whether this rebuilt state is terminal.
    pub fn is_terminal(&self) -> (r: bool)
        ensures
            r == self.is_terminal_view(),
    {
        match self {
            RebuiltState::Completed => true,
            RebuiltState::FailedTerminal => true,
            RebuiltState::Compensated => true,
            RebuiltState::Quarantined => true,
            _ => false,
        }
    }
}

/// Rebuild the state of one saga from its journal entries, in order.
pub fn rebuild_state(entries: &[JournalEntry]) -> (r: RebuiltState)
    ensures
        r == rebuilt_of(entries@),
{
    let n = entries.len();
    let mut acc = RebuiltState::Unknown;
    let mut idx: usize = 0;
    while idx < n
        invariant
            n == entries@.len(),
            idx <= n,
            acc == rebuilt_of(entries@.subrange(0, idx as int)),
        decreases n - idx,
    {
        let ghost pre = entries@.subrange(0, idx as int);
        acc = match &entries[idx] {
            JournalEntry { event: ParticipantEvent::StepExecutionStarted { .. }, .. } => {
                RebuiltState::Executing
            },
            JournalEntry { event: ParticipantEvent::StepExecutionCompleted { .. }, .. } => {
                RebuiltState::Completed
            },
            JournalEntry {
                event: ParticipantEvent::StepExecutionFailed { requires_compensation, .. },
                ..
            } => {
                if *requires_compensation {
                    RebuiltState::FailedNeedsCompensation
                } else {
                    RebuiltState::FailedTerminal
                }
            },
            JournalEntry { event: ParticipantEvent::CompensationStarted { .. }, .. } => {
                RebuiltState::Compensating
            },
            JournalEntry { event: ParticipantEvent::CompensationCompleted { .. }, .. } => {
                RebuiltState::Compensated
            },
            JournalEntry { event: ParticipantEvent::Quarantined { .. }, .. } => {
                RebuiltState::Quarantined
            },
            _ => acc,
        };
        proof {
            assert(entries@.subrange(0, idx + 1).drop_last() =~= pre);
            assert(entries@.subrange(0, idx + 1).last() == entries@[idx as int]);
        }
        idx = idx + 1;
    }
    proof {
        assert(entries@.subrange(0, n as int) =~= entries@);
    }
    acc
}

/// Find the sagas that must be resumed: those with a journal whose
/// rebuilt state is not terminal. The host re-arms each one. Fails only
/// when the journal cannot list its sagas.
pub fn recover_sagas<J: ParticipantJournal>(journal: &J) -> (r: Result<Vec<SagaId>, JournalError>)
    requires
        journal.journal_wf(),
    ensures
        r matches Ok(v) ==> forall|i: int, j: int|
            0 <= i < j < v@.len() ==> (#[trigger] v@[i]).0 != (#[trigger] v@[j]).0,
        r matches Ok(v) ==> forall|i: int|
            0 <= i < v@.len() ==> journal.journal_view().contains_key((#[trigger] v@[i]).0)
                && !rebuilt_of(journal.journal_view()[v@[i].0]).is_terminal_view(),
        r matches Ok(v) ==> forall|k: u64| #[trigger]
            journal.journal_view().contains_key(k) && !rebuilt_of(
                journal.journal_view()[k],
            ).is_terminal_view() ==> v@.contains(SagaId(k)),
{
    let mut recovered: Vec<SagaId> = Vec::new();
    let ids = match journal.list_sagas() {
        Ok(v) => v,
        Err(e) => {
            return Err(e);
        },
    };
    let n = ids.len();
    let mut idx: usize = 0;
    while idx < n
        invariant
            journal.journal_wf(),
            n == ids@.len(),
            idx <= n,
            forall|i: int, j: int|
                0 <= i < j < ids@.len() ==> (#[trigger] ids@[i]).0 != (#[trigger] ids@[j]).0,
            forall|k: u64| #[trigger]
                journal.journal_view().contains_key(k) ==> ids@.contains(SagaId(k)),
            forall|i: int|
                0 <= i < ids@.len() ==> journal.journal_view().contains_key(
                    (#[trigger] ids@[i]).0,
                ),
            forall|t1: int, t2: int|
                0 <= t1 < t2 < recovered@.len() ==> (#[trigger] recovered@[t1]).0 != (
                #[trigger] recovered@[t2]).0,
            forall|t: int|
                0 <= t < recovered@.len() ==> exists|i: int|
                    0 <= i < idx && (#[trigger] recovered@[t]) == ids@[i],
            forall|t: int|
                0 <= t < recovered@.len() ==> journal.journal_view().contains_key(
                    (#[trigger] recovered@[t]).0,
                ) && !rebuilt_of(
                    journal.journal_view()[recovered@[t].0],
                ).is_terminal_view(),
            forall|i: int|
                0 <= i < idx && journal.journal_view().contains_key((#[trigger] ids@[i]).0)
                    && !rebuilt_of(journal.journal_view()[ids@[i].0]).is_terminal_view()
                    ==> recovered@.contains(ids@[i]),
        decreases n - idx,
    {
        let saga_id = ids[idx];
        match journal.read(saga_id) {
            Ok(entries) => {
                let state = rebuild_state(entries.as_slice());
                if !state.is_terminal() {
                    proof {
                        assert forall|t: int| 0 <= t < recovered@.len() implies (
                        #[trigger] recovered@[t]).0 != saga_id.0 by {
                            let i = choose|i: int| 0 <= i < idx && recovered@[t] == ids@[i];
                            assert(ids@[i].0 != ids@[idx as int].0);
                        }
                    }
                    let ghost pre_rec = recovered@;
                    recovered.push(saga_id);
                    proof {
                        assert forall|i: int|
                            0 <= i < idx + 1 && journal.journal_view().contains_key(
                                (#[trigger] ids@[i]).0,
                            ) && !rebuilt_of(
                                journal.journal_view()[ids@[i].0],
                            ).is_terminal_view() implies recovered@.contains(ids@[i]) by {
                            if i < idx {
                                assert(pre_rec.contains(ids@[i]));
                                let t = choose|t: int|
                                    0 <= t < pre_rec.len() && pre_rec[t] == ids@[i];
                                assert(recovered@[t] == ids@[i]);
                            } else {
                                assert(recovered@.last() == ids@[idx as int]);
                            }
                        }
                    }
                }
            },
            Err(_) => {},
        }
        idx = idx + 1;
    }
    proof {
        assert forall|k: u64| #[trigger]
            journal.journal_view().contains_key(k) && !rebuilt_of(
                journal.journal_view()[k],
            ).is_terminal_view() implies recovered@.contains(SagaId(k)) by {
            assert(ids@.contains(SagaId(k)));
            let i = choose|i: int| 0 <= i < ids@.len() && ids@[i] == SagaId(k);
            assert(recovered@.contains(ids@[i]));
        }
    }
    Ok(recovered)
}

} // verus!
