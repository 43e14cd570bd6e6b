use saga_choreo::{DependencySpec, RetryPolicy};

#[test]
fn test_retry_delay() {
    let policy = RetryPolicy::default();

    assert_eq!(policy.delay_for_attempt(0), 0);
    assert_eq!(policy.delay_for_attempt(1), 1000);
    assert_eq!(policy.delay_for_attempt(2), 2000);
    assert_eq!(policy.delay_for_attempt(3), 4000);
    // Would be 512000 but capped at max
    assert!(policy.delay_for_attempt(10) <= 30000);
}

#[test]
fn test_dependency_spec() {
    let spec = DependencySpec::After(String::from("reserve_inventory"));
    assert!(spec.is_satisfied_by("reserve_inventory"));
    assert!(!spec.is_satisfied_by("other_step"));
    assert!(!spec.is_on_saga_start());
}

#[test]
fn retry_delay_caps_at_max() {
    let policy = RetryPolicy {
        max_attempts: 10,
        initial_delay_millis: 1000,
        max_delay_millis: 30000,
        backoff_multiplier: 2,
    };
    assert_eq!(policy.delay_for_attempt(6), 30000);
    assert_eq!(policy.delay_for_attempt(10), 30000);
}

#[test]
fn retry_delay_zero_multiplier() {
    let policy = RetryPolicy {
        max_attempts: 3,
        initial_delay_millis: 1000,
        max_delay_millis: 30000,
        backoff_multiplier: 0,
    };
    assert_eq!(policy.delay_for_attempt(1), 1000);
    assert_eq!(policy.delay_for_attempt(2), 0);
    assert_eq!(policy.delay_for_attempt(3), 0);
}

#[test]
fn dependency_any_of_and_all_of() {
    let any = DependencySpec::AnyOf(vec![String::from("a"), String::from("b")]);
    assert!(any.is_satisfied_by("a"));
    assert!(any.is_satisfied_by("b"));
    assert!(!any.is_satisfied_by("c"));

    let all = DependencySpec::AllOf(vec![String::from("a"), String::from("b")]);
    assert!(all.is_satisfied_by("a"));
    assert!(!all.is_satisfied_by("c"));

    let start = DependencySpec::OnSagaStart;
    assert!(start.is_on_saga_start());
    assert!(!start.is_satisfied_by("a"));
}

#[test]
fn dependency_names() {
    let after = DependencySpec::After(String::from("prepare_order"));
    assert_eq!(after.names(), vec![String::from("prepare_order")]);
    let none = DependencySpec::OnSagaStart;
    assert!(none.names().is_empty());
    let all = DependencySpec::AllOf(vec![String::from("a"), String::from("b")]);
    assert_eq!(all.names(), vec![String::from("a"), String::from("b")]);
}
