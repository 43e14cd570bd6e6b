use saga_choreo::{
    rebuild_state, recover_sagas, InMemoryJournal, JournalEntry, ParticipantEvent,
    ParticipantJournal, RebuiltState, SagaId,
};

fn started(at: u64) -> ParticipantEvent {
    ParticipantEvent::StepExecutionStarted { attempt: 1, started_at_millis: at }
}

fn completed(at: u64) -> ParticipantEvent {
    ParticipantEvent::StepExecutionCompleted {
        output: vec![1],
        compensation_data: vec![2],
        completed_at_millis: at,
    }
}

#[test]
fn rebuild_follows_latest_marker() {
    assert_eq!(rebuild_state(&[]), RebuiltState::Unknown);

    let mut j = InMemoryJournal::new();
    let id = SagaId::new(7);
    j.append(id, started(10), 10).unwrap();
    assert_eq!(rebuild_state(j.read(id).unwrap().as_slice()), RebuiltState::Executing);

    j.append(id, completed(20), 20).unwrap();
    assert_eq!(rebuild_state(j.read(id).unwrap().as_slice()), RebuiltState::Completed);

    j.append(
        id,
        ParticipantEvent::CompensationStarted { attempt: 1, started_at_millis: 30 },
        30,
    )
    .unwrap();
    assert_eq!(rebuild_state(j.read(id).unwrap().as_slice()), RebuiltState::Compensating);

    j.append(id, ParticipantEvent::CompensationCompleted { completed_at_millis: 40 }, 40)
        .unwrap();
    assert_eq!(rebuild_state(j.read(id).unwrap().as_slice()), RebuiltState::Compensated);
}

#[test]
fn rebuild_failed_variants() {
    let fail = |req: bool| ParticipantEvent::StepExecutionFailed {
        error: String::from("boom"),
        requires_compensation: req,
        failed_at_millis: 15,
    };
    let entry = |seq: u64, event: ParticipantEvent| JournalEntry {
        sequence: seq,
        recorded_at_millis: 15,
        event,
    };
    assert_eq!(
        rebuild_state(&[entry(1, started(10)), entry(2, fail(true))]),
        RebuiltState::FailedNeedsCompensation
    );
    assert_eq!(
        rebuild_state(&[entry(1, started(10)), entry(2, fail(false))]),
        RebuiltState::FailedTerminal
    );
    assert_eq!(
        rebuild_state(&[
            entry(1, started(10)),
            entry(
                2,
                ParticipantEvent::Quarantined {
                    reason: String::from("ambiguous"),
                    quarantined_at_millis: 20
                }
            )
        ]),
        RebuiltState::Quarantined
    );
    // Non-marker events leave the rebuilt state untouched.
    assert_eq!(
        rebuild_state(&[
            entry(1, started(10)),
            entry(
                2,
                ParticipantEvent::SagaRegistered {
                    saga_type: String::from("deribit_order"),
                    step_name: String::from("prepare_order"),
                    registered_at_millis: 5
                }
            )
        ]),
        RebuiltState::Executing
    );
}

#[test]
fn rebuild_every_prefix_matches_last_persisted_state() {
    let mut j = InMemoryJournal::new();
    let id = SagaId::new(9);
    j.append(id, started(10), 10).unwrap();
    j.append(id, completed(20), 20).unwrap();
    j.append(
        id,
        ParticipantEvent::CompensationStarted { attempt: 1, started_at_millis: 30 },
        30,
    )
    .unwrap();
    let entries = j.read(id).unwrap();
    let expected = [
        RebuiltState::Executing,
        RebuiltState::Completed,
        RebuiltState::Compensating,
    ];
    for n in 1..=entries.len() {
        assert_eq!(rebuild_state(&entries[..n]), expected[n - 1]);
    }
}

#[test]
fn recover_returns_only_non_terminal_sagas() {
    let mut j = InMemoryJournal::new();
    let executing = SagaId::new(1);
    let done = SagaId::new(2);
    let compensating = SagaId::new(3);
    j.append(executing, started(10), 10).unwrap();
    j.append(done, started(10), 10).unwrap();
    j.append(done, completed(20), 20).unwrap();
    j.append(compensating, started(10), 10).unwrap();
    j.append(compensating, completed(20), 20).unwrap();
    j.append(
        compensating,
        ParticipantEvent::CompensationStarted { attempt: 1, started_at_millis: 30 },
        30,
    )
    .unwrap();

    let mut ids: Vec<u64> = recover_sagas(&j).unwrap().iter().map(|s| s.get()).collect();
    ids.sort();
    assert_eq!(ids, vec![1, 3]);
}

#[test]
fn terminal_rebuilt_states() {
    assert!(RebuiltState::Completed.is_terminal());
    assert!(RebuiltState::FailedTerminal.is_terminal());
    assert!(RebuiltState::Compensated.is_terminal());
    assert!(RebuiltState::Quarantined.is_terminal());
    assert!(!RebuiltState::Unknown.is_terminal());
    assert!(!RebuiltState::Executing.is_terminal());
    assert!(!RebuiltState::FailedNeedsCompensation.is_terminal());
    assert!(!RebuiltState::Compensating.is_terminal());
}
