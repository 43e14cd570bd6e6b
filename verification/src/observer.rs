//! Lifecycle callbacks for external observability sinks.

use vstd::prelude::*;

use crate::context::SagaContext;

verus! {

/// Observer of saga lifecycle moments. Implementations export telemetry;
/// the runtime promises nothing about them and relies on nothing from
/// them.
pub trait SagaObserver {
    /// A saga began.
    fn on_saga_started(&self, context: &SagaContext);

    /// A step began executing.
    fn on_step_started(&self, context: &SagaContext, step: &str);

    /// A step completed.
    fn on_step_completed(&self, context: &SagaContext, step: &str, duration_millis: u64);

    /// A step failed.
    fn on_step_failed(&self, context: &SagaContext, step: &str, error: &str);

    /// Compensation of a step began.
    fn on_compensation_started(&self, context: &SagaContext, step: &str);

    /// Compensation of a step completed.
    fn on_compensation_completed(&self, context: &SagaContext, step: &str);

    /// The saga reached its successful end.
    fn on_saga_completed(&self, context: &SagaContext);

    /// The saga failed for good.
    fn on_saga_failed(&self, context: &SagaContext, reason: &str);

    /// The saga was quarantined.
    fn on_saga_quarantined(&self, context: &SagaContext, step: &str, reason: &str);
}

/// Observer that does nothing.
pub struct NoOpObserver;

impl SagaObserver for NoOpObserver {
    fn on_saga_started(&self, _context: &SagaContext) {
    }

    fn on_step_started(&self, _context: &SagaContext, _step: &str) {
    }

    fn on_step_completed(&self, _context: &SagaContext, _step: &str, _duration_millis: u64) {
    }

    fn on_step_failed(&self, _context: &SagaContext, _step: &str, _error: &str) {
    }

    fn on_compensation_started(&self, _context: &SagaContext, _step: &str) {
    }

    fn on_compensation_completed(&self, _context: &SagaContext, _step: &str) {
    }

    fn on_saga_completed(&self, _context: &SagaContext) {
    }

    fn on_saga_failed(&self, _context: &SagaContext, _reason: &str) {
    }

    fn on_saga_quarantined(&self, _context: &SagaContext, _step: &str, _reason: &str) {
    }
}

} // verus!
