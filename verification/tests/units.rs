use saga_choreo::{
    u64_to_dec, dedupe_key, AckStatus, IdempotencyKey, InMemoryDedupe, InMemoryJournal,
    ParticipantDedupeStore, ParticipantEvent, ParticipantJournal, PeerId, SagaChoreographyEvent,
    SagaContext, SagaId, SagaParticipantState, TraceIdGen,
};

fn peer() -> PeerId {
    [7u8; 32]
}

fn ctx(saga_id: u64, trace_id: u64) -> SagaContext {
    SagaContext {
        saga_id: SagaId::new(saga_id),
        saga_type: String::from("deribit_order"),
        step_name: String::from("prepare_order"),
        correlation_id: saga_id,
        causation_id: 0,
        trace_id,
        step_index: 0,
        attempt: 0,
        initiator_peer_id: peer(),
        saga_started_at_millis: 1_000,
        event_timestamp_millis: 1_000,
    }
}

#[test]
fn decimal_rendering() {
    assert_eq!(u64_to_dec(0), "0");
    assert_eq!(u64_to_dec(7), "7");
    assert_eq!(u64_to_dec(42), "42");
    assert_eq!(u64_to_dec(1090), "1090");
    assert_eq!(u64_to_dec(u64::MAX), "18446744073709551615");
}

#[test]
fn idempotency_keys() {
    let k = IdempotencyKey::for_step(SagaId::new(42), "place_order", 3);
    assert_eq!(k.as_str(), "saga:42:step:place_order:attempt:3");
    let c = IdempotencyKey::for_compensation(SagaId::new(42), "place_order");
    assert_eq!(c.as_str(), "saga:42:compensate:place_order");
}

#[test]
fn dedupe_key_format() {
    assert_eq!(dedupe_key(17, "step_completed"), "17:step_completed");
}

#[test]
fn event_types_and_topic() {
    let c = ctx(42, 1);
    let e = SagaChoreographyEvent::SagaStarted { context: c.clone(), payload: vec![1, 2] };
    assert_eq!(e.event_type(), "saga_started");
    assert_eq!(e.context().saga_id.get(), 42);
    let e2 = SagaChoreographyEvent::StepCompleted {
        context: c.clone(),
        output: vec![],
        compensation_available: false,
    };
    assert_eq!(e2.event_type(), "step_completed");
    let e3 = SagaChoreographyEvent::StepAck {
        context: c,
        participant_id: peer(),
        status: AckStatus::Accepted,
    };
    assert_eq!(e3.event_type(), "step_ack");
    assert_eq!(
        SagaChoreographyEvent::topic("deribit_order"),
        String::from("saga:deribit_order")
    );
}

#[test]
fn context_derivations_monotone_traces() {
    let mut gen = TraceIdGen::new(100);
    let c0 = ctx(42, 5);
    let c1 = c0.next_step(String::from("place_order"), &mut gen, 2_000);
    assert!(c1.trace_id > c0.trace_id);
    assert_eq!(c1.causation_id, c0.trace_id);
    assert_eq!(c1.step_index, 1);
    assert_eq!(c1.attempt, 0);
    assert_eq!(c1.step_name, "place_order");
    assert_eq!(c1.saga_id.get(), 42);
    assert_eq!(c1.event_timestamp_millis, 2_000);

    let c2 = c1.retry(&mut gen, 3_000);
    assert!(c2.trace_id > c1.trace_id);
    assert_eq!(c2.attempt, 1);
    assert_eq!(c2.step_index, c1.step_index);
    assert_eq!(c2.step_name, c1.step_name);

    let c3 = c2.for_compensation(&mut gen, 4_000);
    assert!(c3.trace_id > c2.trace_id);
    assert_eq!(c3.causation_id, c2.trace_id);
    assert_eq!(c3.attempt, c2.attempt);
}

#[test]
fn elapsed_millis_saturates() {
    let mut c = ctx(1, 1);
    c.saga_started_at_millis = 500;
    c.event_timestamp_millis = 800;
    assert_eq!(c.elapsed_millis(), 300);
    c.event_timestamp_millis = 200;
    assert_eq!(c.elapsed_millis(), 0);
}

#[test]
fn typestate_transitions() {
    let s = SagaParticipantState::new(
        SagaId::new(9),
        String::from("deribit_order"),
        String::from("prepare_order"),
        9,
        1,
        peer(),
        1_000,
    );
    assert_eq!(s.last_updated_at_millis, 1_000);
    let t = s.trigger("dependency_satisfied", 1_100);
    assert_eq!(t.state.triggered_at_millis, 1_100);
    assert_eq!(t.state.triggering_event, "dependency_satisfied");
    let e = t.start_execution(1_200);
    assert_eq!(e.state.attempt, 1);
    let e2 = e.retry_execution(1_250);
    assert_eq!(e2.state.attempt, 2);
    let c = e2.complete(vec![1], vec![2], 1_300);
    assert_eq!(c.state.output, vec![1]);
    assert_eq!(c.state.compensation_data, vec![2]);
    let comp = c.start_compensation(1_400);
    assert_eq!(comp.state.attempt, 1);
    let done = comp.complete_compensation(1_500);
    assert_eq!(done.state.completed_at_millis, 1_500);
    assert_eq!(done.step_name, "prepare_order");
    assert_eq!(done.saga_id.get(), 9);
}

#[test]
fn typestate_failure_and_quarantine() {
    let s = SagaParticipantState::new(
        SagaId::new(9),
        String::from("deribit_order"),
        String::from("prepare_order"),
        9,
        1,
        peer(),
        1_000,
    );
    let e = s.trigger("dependency_satisfied", 1_100).start_execution(1_200);
    let f = e.fail(String::from("boom"), true, 1_300);
    assert_eq!(f.state.error, "boom");
    assert!(f.state.requires_compensation);

    let s2 = SagaParticipantState::new(
        SagaId::new(10),
        String::from("deribit_order"),
        String::from("prepare_order"),
        10,
        1,
        peer(),
        1_000,
    );
    let q = s2
        .trigger("dependency_satisfied", 1_100)
        .start_execution(1_200)
        .complete(vec![], vec![], 1_300)
        .start_compensation(1_400)
        .quarantine(String::from("ambiguous"), 1_500);
    assert_eq!(q.state.reason, "ambiguous");
}

#[test]
fn dedupe_store_gate() {
    let mut d = InMemoryDedupe::new();
    let id = SagaId::new(5);
    assert_eq!(d.check_and_mark(id, "1:step_completed").unwrap(), true);
    assert_eq!(d.check_and_mark(id, "1:step_completed").unwrap(), false);
    assert!(d.contains(id, "1:step_completed"));
    assert!(!d.contains(id, "2:step_completed"));
    d.mark_processed(id, "2:step_completed").unwrap();
    assert!(d.contains(id, "2:step_completed"));
    let other = SagaId::new(6);
    d.mark_processed(other, "1:step_completed").unwrap();
    d.prune(id).unwrap();
    assert!(!d.contains(id, "1:step_completed"));
    assert!(!d.contains(id, "2:step_completed"));
    assert!(d.contains(other, "1:step_completed"));
}

#[test]
fn journal_sequences_increase() {
    let mut j = InMemoryJournal::new();
    let id = SagaId::new(3);
    let s1 = j
        .append(
            id,
            ParticipantEvent::StepExecutionStarted { attempt: 1, started_at_millis: 10 },
            10,
        )
        .unwrap();
    let s2 = j
        .append(
            id,
            ParticipantEvent::StepExecutionCompleted {
                output: vec![1],
                compensation_data: vec![2],
                completed_at_millis: 20,
            },
            20,
        )
        .unwrap();
    assert!(s2 > s1);
    let entries = j.read(id).unwrap();
    assert_eq!(entries.len(), 2);
    assert_eq!(entries[0].sequence, s1);
    assert_eq!(entries[1].sequence, s2);
    assert_eq!(entries[0].recorded_at_millis, 10);
    assert!(matches!(
        entries[0].event,
        ParticipantEvent::StepExecutionStarted { attempt: 1, .. }
    ));
    let sagas = j.list_sagas().unwrap();
    assert_eq!(sagas.len(), 1);
    assert_eq!(sagas[0].get(), 3);
    assert!(j.read(SagaId::new(99)).is_err());
}
