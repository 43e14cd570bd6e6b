use saga_choreo::{
    handle_saga_event, retry_step, CompensationError, DependencySpec, ParticipantConfig,
    ParticipantCore, PeerId, Phase, RetryPolicy, SagaChoreographyEvent, SagaContext,
    SagaId, SagaParticipant, StepError, StepOutput,
};

fn peer() -> PeerId {
    [1u8; 32]
}

fn ctx(saga_id: u64, step_name: &str, trace_id: u64) -> SagaContext {
    SagaContext {
        saga_id: SagaId::new(saga_id),
        saga_type: String::from("deribit_order"),
        step_name: String::from(step_name),
        correlation_id: saga_id,
        causation_id: 0,
        trace_id,
        step_index: 0,
        attempt: 0,
        initiator_peer_id: peer(),
        saga_started_at_millis: 1_000,
        event_timestamp_millis: 1_000,
    }
}

struct Scripted {
    exec_results: Vec<Result<StepOutput, StepError>>,
    comp_results: Vec<Result<(), CompensationError>>,
    exec_calls: usize,
    comp_calls: usize,
    last_input: Vec<u8>,
    last_comp_data: Vec<u8>,
    quarantine_reasons: Vec<String>,
    completed_sagas: usize,
}

impl Scripted {
    fn new() -> Self {
        Scripted {
            exec_results: Vec::new(),
            comp_results: Vec::new(),
            exec_calls: 0,
            comp_calls: 0,
            last_input: Vec::new(),
            last_comp_data: Vec::new(),
            quarantine_reasons: Vec::new(),
            completed_sagas: 0,
        }
    }
}

impl SagaParticipant for Scripted {
    fn execute_step(
        &mut self,
        _context: &SagaContext,
        input: &Vec<u8>,
    ) -> Result<StepOutput, StepError> {
        self.exec_calls += 1;
        self.last_input = input.clone();
        self.exec_results.remove(0)
    }

    fn compensate_step(
        &mut self,
        _context: &SagaContext,
        compensation_data: &Vec<u8>,
    ) -> Result<(), CompensationError> {
        self.comp_calls += 1;
        self.last_comp_data = compensation_data.clone();
        self.comp_results.remove(0)
    }

    fn on_saga_completed(&mut self, _context: &SagaContext) {
        self.completed_sagas += 1;
    }

    fn on_saga_failed(&mut self, _context: &SagaContext, _reason: &str) {}

    fn on_compensation_completed(&mut self, _context: &SagaContext) {}

    fn on_quarantined(&mut self, _context: &SagaContext, reason: &str) {
        self.quarantine_reasons.push(String::from(reason));
    }
}

fn config_a() -> ParticipantConfig {
    ParticipantConfig {
        step_name: String::from("prepare_order"),
        saga_types: vec![String::from("deribit_order")],
        depends_on: DependencySpec::OnSagaStart,
        retry_policy: RetryPolicy::default(),
        step_timeout_millis: 30_000,
    }
}

fn config_b() -> ParticipantConfig {
    ParticipantConfig {
        step_name: String::from("place_order"),
        saga_types: vec![String::from("deribit_order")],
        depends_on: DependencySpec::After(String::from("prepare_order")),
        retry_policy: RetryPolicy::default(),
        step_timeout_millis: 30_000,
    }
}

fn ok_output(output: Vec<u8>, comp: Vec<u8>) -> Result<StepOutput, StepError> {
    Ok(StepOutput::Completed { output, compensation_data: comp })
}

/// Drives participant A through `SagaStarted` and hands A's emitted
/// `StepCompleted` to participant B; returns B's core and participant plus
/// the event B consumed.
fn run_happy_path(
    b_exec: Vec<Result<StepOutput, StepError>>,
) -> (Scripted, ParticipantCore, Scripted, ParticipantCore, SagaChoreographyEvent) {
    let mut a = Scripted::new();
    a.exec_results = vec![ok_output(vec![0xCA, 0xFE], vec![0xCA])];
    let mut core_a = ParticipantCore::new(config_a(), 100);

    let started = SagaChoreographyEvent::SagaStarted {
        context: ctx(42, "", 1),
        payload: vec![9, 9],
    };
    let out_a = handle_saga_event(&mut a, &mut core_a, started, 1_000);
    assert_eq!(out_a.emitted.len(), 1);
    let step_completed = out_a.emitted.into_iter().next().unwrap();
    assert!(matches!(
        step_completed,
        SagaChoreographyEvent::StepCompleted { .. }
    ));
    assert_eq!(step_completed.context().step_name, "prepare_order");

    let mut b = Scripted::new();
    b.exec_results = b_exec;
    let mut core_b = ParticipantCore::new(config_b(), 200);
    (a, core_a, b, core_b, step_completed)
}

#[test]
fn happy_path() {
    let (_a, _core_a, mut b, mut core_b, step_completed) =
        run_happy_path(vec![ok_output(vec![0xD0, 0x0D], vec![0xD0, 0x0D])]);

    let out_b = handle_saga_event(&mut b, &mut core_b, step_completed, 2_000);

    assert_eq!(b.exec_calls, 1);
    assert_eq!(b.last_input, vec![0xCA, 0xFE]);

    // B's journal: StepExecutionStarted{attempt=1} then the completion
    // with output [0xD0, 0x0D].
    let entries = core_b.read_journal(SagaId::new(42)).unwrap();
    assert_eq!(entries.len(), 2);
    assert!(matches!(
        entries[0].event,
        saga_choreo::ParticipantEvent::StepExecutionStarted { attempt: 1, .. }
    ));
    match &entries[1].event {
        saga_choreo::ParticipantEvent::StepExecutionCompleted { output, compensation_data, .. } => {
            assert_eq!(output, &vec![0xD0, 0x0D]);
            assert_eq!(compensation_data, &vec![0xD0, 0x0D]);
        }
        other => panic!("unexpected journal event: {:?}", other),
    }

    let stats = core_b.stats();
    assert_eq!(stats.events_received, 1);
    assert_eq!(stats.duplicate_events, 0);
    assert_eq!(stats.steps_completed, 1);

    // B emitted its own StepCompleted with output [0xD0, 0x0D].
    assert_eq!(out_b.emitted.len(), 1);
    match &out_b.emitted[0] {
        SagaChoreographyEvent::StepCompleted { output, compensation_available, context } => {
            assert_eq!(output, &vec![0xD0, 0x0D]);
            assert!(*compensation_available);
            assert_eq!(context.step_name, "place_order");
        }
        other => panic!("unexpected event: {:?}", other),
    }
    assert_eq!(core_b.state_phase(SagaId::new(42)), Some(Phase::Completed));
}

#[test]
fn duplicate_delivery() {
    let (_a, _core_a, mut b, mut core_b, step_completed) =
        run_happy_path(vec![ok_output(vec![0xD0, 0x0D], vec![])]);

    let copy = step_completed.clone();
    handle_saga_event(&mut b, &mut core_b, step_completed, 2_000);
    handle_saga_event(&mut b, &mut core_b, copy, 2_100);

    assert_eq!(b.exec_calls, 1);
    let stats = core_b.stats();
    assert_eq!(stats.duplicate_events, 1);
    assert_eq!(stats.events_received, 1);
}

#[test]
fn compensation_path() {
    let (_a, _core_a, mut b, mut core_b, step_completed) =
        run_happy_path(vec![ok_output(vec![0xD0, 0x0D], vec![0xD0, 0x0D])]);
    b.comp_results = vec![Ok(())];
    handle_saga_event(&mut b, &mut core_b, step_completed, 2_000);

    let request = SagaChoreographyEvent::CompensationRequested {
        context: ctx(42, "risk_check", 900),
        failed_step: String::from("risk_check"),
        reason: String::from("limit_breached"),
        steps_to_compensate: vec![String::from("place_order")],
    };
    let out = handle_saga_event(&mut b, &mut core_b, request, 3_000);

    assert_eq!(b.comp_calls, 1);
    assert_eq!(b.last_comp_data, vec![0xD0, 0x0D]);
    assert_eq!(core_b.state_phase(SagaId::new(42)), Some(Phase::Compensated));
    assert_eq!(out.emitted.len(), 1);
    assert!(matches!(
        out.emitted[0],
        SagaChoreographyEvent::CompensationCompleted { .. }
    ));

    // A redelivered request with a fresh trace finds no Completed state:
    // the compensation runs at most once.
    let request_again = SagaChoreographyEvent::CompensationRequested {
        context: ctx(42, "risk_check", 901),
        failed_step: String::from("risk_check"),
        reason: String::from("limit_breached"),
        steps_to_compensate: vec![String::from("place_order")],
    };
    let out2 = handle_saga_event(&mut b, &mut core_b, request_again, 3_100);
    assert_eq!(b.comp_calls, 1);
    assert!(out2.emitted.is_empty());
}

#[test]
fn ambiguous_compensation_quarantines() {
    let (_a, _core_a, mut b, mut core_b, step_completed) =
        run_happy_path(vec![ok_output(vec![0xD0, 0x0D], vec![0xD0, 0x0D])]);
    b.comp_results = vec![Err(CompensationError::Ambiguous {
        reason: String::from("network_timeout"),
    })];
    handle_saga_event(&mut b, &mut core_b, step_completed, 2_000);

    let request = SagaChoreographyEvent::CompensationRequested {
        context: ctx(42, "risk_check", 900),
        failed_step: String::from("risk_check"),
        reason: String::from("limit_breached"),
        steps_to_compensate: vec![String::from("place_order")],
    };
    let out = handle_saga_event(&mut b, &mut core_b, request, 3_000);

    assert_eq!(core_b.state_phase(SagaId::new(42)), Some(Phase::Quarantined));
    assert_eq!(out.emitted.len(), 1);
    match &out.emitted[0] {
        SagaChoreographyEvent::SagaQuarantined { reason, step, .. } => {
            assert_eq!(reason, "network_timeout");
            assert_eq!(step, "place_order");
        }
        other => panic!("unexpected event: {:?}", other),
    }
    assert_eq!(core_b.stats().quarantined_sagas, 1);
    assert!(out.retry.is_none());
    assert_eq!(b.quarantine_reasons, vec![String::from("network_timeout")]);
}

#[test]
fn require_compensation_failure() {
    let (mut a, mut core_a, mut b, mut core_b, step_completed) = run_happy_path(vec![Err(
        StepError::RequireCompensation { reason: String::from("rejected") },
    )]);
    a.comp_results = vec![Ok(())];

    let out_b = handle_saga_event(&mut b, &mut core_b, step_completed, 2_000);

    assert_eq!(core_b.state_phase(SagaId::new(42)), Some(Phase::Failed));
    assert_eq!(out_b.emitted.len(), 2);
    match &out_b.emitted[0] {
        SagaChoreographyEvent::StepFailed { error, will_retry, requires_compensation, .. } => {
            assert_eq!(error, "rejected");
            assert!(!*will_retry);
            assert!(*requires_compensation);
        }
        other => panic!("unexpected event: {:?}", other),
    }
    let request = out_b.emitted.into_iter().nth(1).unwrap();
    match &request {
        SagaChoreographyEvent::CompensationRequested { steps_to_compensate, failed_step, .. } => {
            assert_eq!(steps_to_compensate, &vec![String::from("prepare_order")]);
            assert_eq!(failed_step, "place_order");
        }
        other => panic!("unexpected event: {:?}", other),
    }

    // A then runs its compensation.
    let out_a = handle_saga_event(&mut a, &mut core_a, request, 3_000);
    assert_eq!(a.comp_calls, 1);
    assert_eq!(a.last_comp_data, vec![0xCA]);
    assert_eq!(core_a.state_phase(SagaId::new(42)), Some(Phase::Compensated));
    assert_eq!(out_a.emitted.len(), 1);
    assert!(matches!(
        out_a.emitted[0],
        SagaChoreographyEvent::CompensationCompleted { .. }
    ));
}

#[test]
fn retriable_with_exhaustion() {
    let retriable = || StepError::Retriable { reason: String::from("venue_busy") };
    let (_a, _core_a, mut b, mut core_b, step_completed) =
        run_happy_path(vec![Err(retriable()), Err(retriable()), Err(retriable())]);

    // First invocation at +0: schedules a retry after 1000 ms.
    let out1 = handle_saga_event(&mut b, &mut core_b, step_completed, 2_000);
    assert_eq!(b.exec_calls, 1);
    let d1 = out1.retry.expect("first retry scheduled");
    assert_eq!(d1.delay_millis, 1_000);
    assert!(!d1.compensation);
    assert_eq!(d1.input, vec![0xCA, 0xFE]);
    assert_eq!(d1.context.attempt, 1);

    // Second invocation at +1000: schedules a retry after 2000 ms.
    let out2 = retry_step(&mut b, &mut core_b, d1.context, d1.input, 3_000);
    assert_eq!(b.exec_calls, 2);
    let d2 = out2.retry.expect("second retry scheduled");
    assert_eq!(d2.delay_millis, 2_000);

    // Third invocation at +3000: the policy's three attempts are spent,
    // the failure escalates, and nothing further is scheduled.
    let out3 = retry_step(&mut b, &mut core_b, d2.context, d2.input, 5_000);
    assert_eq!(b.exec_calls, 3);
    assert!(out3.retry.is_none());
    assert_eq!(core_b.state_phase(SagaId::new(42)), Some(Phase::Failed));
    match &out3.emitted[0] {
        SagaChoreographyEvent::StepFailed { will_retry, .. } => assert!(!*will_retry),
        other => panic!("unexpected event: {:?}", other),
    }
    assert_eq!(core_b.stats().steps_completed, 0);
    assert_eq!(core_b.stats().steps_failed, 1);
}

#[test]
fn lifecycle_prunes_state_and_dedupe() {
    let (_a, _core_a, mut b, mut core_b, step_completed) =
        run_happy_path(vec![ok_output(vec![0xD0, 0x0D], vec![])]);
    let trace = step_completed.context().trace_id;
    handle_saga_event(&mut b, &mut core_b, step_completed, 2_000);
    assert!(core_b.is_saga_active(SagaId::new(42)));
    let key = saga_choreo::dedupe_key(trace, "step_completed");
    assert!(core_b.dedupe_contains(SagaId::new(42), &key));

    let done = SagaChoreographyEvent::SagaCompleted { context: ctx(42, "", 950) };
    let out = handle_saga_event(&mut b, &mut core_b, done, 3_000);
    assert!(out.emitted.is_empty());
    assert_eq!(b.completed_sagas, 1);
    assert!(core_b.state_phase(SagaId::new(42)).is_none());
    assert!(!core_b.dedupe_contains(SagaId::new(42), &key));
    assert_eq!(core_b.active_saga_count(), 0);
    assert!(core_b.active_saga_ids().is_empty());
}

#[test]
fn saga_type_filter_drops_foreign_events() {
    let mut b = Scripted::new();
    b.exec_results = vec![ok_output(vec![], vec![])];
    let mut core_b = ParticipantCore::new(config_b(), 200);
    let mut foreign = ctx(42, "prepare_order", 10);
    foreign.saga_type = String::from("other_workflow");
    let event = SagaChoreographyEvent::StepCompleted {
        context: foreign,
        output: vec![],
        compensation_available: false,
    };
    let out = handle_saga_event(&mut b, &mut core_b, event, 2_000);
    assert!(out.emitted.is_empty());
    assert_eq!(b.exec_calls, 0);
    assert_eq!(core_b.stats().events_received, 0);
    assert_eq!(core_b.stats().events_relevant, 0);
}

#[test]
fn all_of_dependency_waits_for_every_predecessor() {
    let mut p = Scripted::new();
    p.exec_results = vec![ok_output(vec![1], vec![])];
    let config = ParticipantConfig {
        step_name: String::from("settle"),
        saga_types: vec![String::from("deribit_order")],
        depends_on: DependencySpec::AllOf(vec![
            String::from("prepare_order"),
            String::from("place_order"),
        ]),
        retry_policy: RetryPolicy::default(),
        step_timeout_millis: 30_000,
    };
    let mut core = ParticipantCore::new(config, 300);

    let first = SagaChoreographyEvent::StepCompleted {
        context: ctx(42, "prepare_order", 11),
        output: vec![1],
        compensation_available: false,
    };
    let out1 = handle_saga_event(&mut p, &mut core, first, 2_000);
    assert_eq!(p.exec_calls, 0);
    assert!(out1.emitted.is_empty());

    let second = SagaChoreographyEvent::StepCompleted {
        context: ctx(42, "place_order", 12),
        output: vec![2],
        compensation_available: false,
    };
    let out2 = handle_saga_event(&mut p, &mut core, second, 2_100);
    assert_eq!(p.exec_calls, 1);
    assert_eq!(out2.emitted.len(), 1);
}

#[test]
fn terminal_failure_fails_without_compensation() {
    let (_a, _core_a, mut b, mut core_b, step_completed) = run_happy_path(vec![Err(
        StepError::Terminal { reason: String::from("instrument_delisted") },
    )]);

    let out = handle_saga_event(&mut b, &mut core_b, step_completed, 2_000);

    assert_eq!(core_b.state_phase(SagaId::new(42)), Some(Phase::Failed));
    assert_eq!(out.emitted.len(), 1);
    match &out.emitted[0] {
        SagaChoreographyEvent::StepFailed { error, will_retry, requires_compensation, .. } => {
            assert_eq!(error, "instrument_delisted");
            assert!(!*will_retry);
            assert!(!*requires_compensation);
        }
        other => panic!("unexpected event: {:?}", other),
    }
    assert!(out.retry.is_none());
    assert_eq!(core_b.stats().steps_failed, 1);
}

#[test]
fn safe_to_retry_compensation_retries_then_succeeds() {
    let safe = || CompensationError::SafeToRetry { reason: String::from("venue_busy") };
    let (_a, _core_a, mut b, mut core_b, step_completed) =
        run_happy_path(vec![ok_output(vec![0xD0, 0x0D], vec![0xD0, 0x0D])]);
    b.comp_results = vec![Err(safe()), Err(safe()), Ok(())];
    handle_saga_event(&mut b, &mut core_b, step_completed, 2_000);

    let request = SagaChoreographyEvent::CompensationRequested {
        context: ctx(42, "risk_check", 900),
        failed_step: String::from("risk_check"),
        reason: String::from("limit_breached"),
        steps_to_compensate: vec![String::from("place_order")],
    };
    let out1 = handle_saga_event(&mut b, &mut core_b, request, 3_000);
    assert_eq!(b.comp_calls, 1);
    let d1 = out1.retry.expect("first compensation retry scheduled");
    assert!(d1.compensation);
    assert_eq!(d1.delay_millis, 1_000);
    assert_eq!(d1.input, vec![0xD0, 0x0D]);

    let out2 = saga_choreo::retry_compensation(&mut b, &mut core_b, d1.context, d1.input, 4_000);
    assert_eq!(b.comp_calls, 2);
    let d2 = out2.retry.expect("second compensation retry scheduled");
    assert_eq!(d2.delay_millis, 2_000);

    let out3 = saga_choreo::retry_compensation(&mut b, &mut core_b, d2.context, d2.input, 6_000);
    assert_eq!(b.comp_calls, 3);
    assert!(out3.retry.is_none());
    assert_eq!(core_b.state_phase(SagaId::new(42)), Some(Phase::Compensated));
    assert_eq!(b.last_comp_data, vec![0xD0, 0x0D]);
    assert_eq!(core_b.stats().compensations_completed, 1);
}

#[test]
fn safe_to_retry_exhaustion_quarantines() {
    let safe = || CompensationError::SafeToRetry { reason: String::from("venue_busy") };
    let (_a, _core_a, mut b, mut core_b, step_completed) =
        run_happy_path(vec![ok_output(vec![0xD0, 0x0D], vec![0xD0, 0x0D])]);
    b.comp_results = vec![Err(safe()), Err(safe()), Err(safe())];
    handle_saga_event(&mut b, &mut core_b, step_completed, 2_000);

    let request = SagaChoreographyEvent::CompensationRequested {
        context: ctx(42, "risk_check", 900),
        failed_step: String::from("risk_check"),
        reason: String::from("limit_breached"),
        steps_to_compensate: vec![String::from("place_order")],
    };
    let out1 = handle_saga_event(&mut b, &mut core_b, request, 3_000);
    let d1 = out1.retry.expect("first compensation retry scheduled");
    let out2 = saga_choreo::retry_compensation(&mut b, &mut core_b, d1.context, d1.input, 4_000);
    let d2 = out2.retry.expect("second compensation retry scheduled");
    let out3 = saga_choreo::retry_compensation(&mut b, &mut core_b, d2.context, d2.input, 6_000);

    assert_eq!(b.comp_calls, 3);
    assert!(out3.retry.is_none());
    assert_eq!(core_b.state_phase(SagaId::new(42)), Some(Phase::Quarantined));
    assert_eq!(core_b.stats().quarantined_sagas, 1);
    assert_eq!(out3.emitted.len(), 1);
    assert!(matches!(
        out3.emitted[0],
        SagaChoreographyEvent::SagaQuarantined { .. }
    ));
}
