//! Error types for saga step execution and compensation.

use vstd::prelude::*;

verus! {

/// Output from step execution.
#[derive(Clone, Debug)]
pub enum StepOutput {
    /// Step completed successfully.
    Completed {
        /// Output data (passed to the next step or stored).
        output: Vec<u8>,
        /// Data needed for compensation (kept until the saga terminates).
        compensation_data: Vec<u8>,
    },
    /// Step completed with an effect to emit.
    CompletedWithEffect {
        /// Output data.
        output: Vec<u8>,
        /// Compensation data.
        compensation_data: Vec<u8>,
        /// Effect identifier (actor message to send).
        effect: String,
    },
}

impl StepOutput {
    /// The output data, whichever variant carries it.
    pub open spec fn output_view(&self) -> Seq<u8> {
        match self {
            StepOutput::Completed { output, .. } => output@,
            StepOutput::CompletedWithEffect { output, .. } => output@,
        }
    }

    /// The compensation data, whichever variant carries it.
    pub open spec fn comp_view(&self) -> Seq<u8> {
        match self {
            StepOutput::Completed { compensation_data, .. } => compensation_data@,
            StepOutput::CompletedWithEffect { compensation_data, .. } => compensation_data@,
        }
    }
}

/// Error from step execution.
#[derive(Clone, Debug)]
pub enum StepError {
    /// Temporary error - can retry with exponential backoff.
    Retriable {
        /// Error description.
        reason: String,
    },
    /// Permanent error - fail the saga without compensation.
    Terminal {
        /// Error description.
        reason: String,
    },
    /// Permanent error that requires compensating the predecessors.
    RequireCompensation {
        /// Error description.
        reason: String,
    },
}

impl StepError {
    /// The error description, whichever variant carries it.
    pub open spec fn reason_view(&self) -> Seq<char> {
        match self {
            StepError::Retriable { reason } => reason@,
            StepError::Terminal { reason } => reason@,
            StepError::RequireCompensation { reason } => reason@,
        }
    }

    /// Check if this error is retriable.
    pub fn is_retriable(&self) -> (r: bool)
        ensures
            r == (self is Retriable),
    {
        match self {
            StepError::Retriable { .. } => true,
            _ => false,
        }
    }

    /// Check if this error requires compensation.
    pub fn requires_compensation(&self) -> (r: bool)
        ensures
            r == (self is RequireCompensation),
    {
        match self {
            StepError::RequireCompensation { .. } => true,
            _ => false,
        }
    }
}

/// Error from compensation execution.
#[derive(Clone, Debug)]
pub enum CompensationError {
    /// Safe to retry - no side effects were applied.
    SafeToRetry {
        /// Error description.
        reason: String,
    },
    /// Ambiguous state - compensation may or may not have applied.
    Ambiguous {
        /// Error description.
        reason: String,
    },
    /// Terminal failure - cannot compensate.
    Terminal {
        /// Error description.
        reason: String,
    },
}

impl CompensationError {
    /// The error description, whichever variant carries it.
    pub open spec fn reason_view(&self) -> Seq<char> {
        match self {
            CompensationError::SafeToRetry { reason } => reason@,
            CompensationError::Ambiguous { reason } => reason@,
            CompensationError::Terminal { reason } => reason@,
        }
    }

    /// Check if it is safe to retry the compensation.
    pub fn is_safe_to_retry(&self) -> (r: bool)
        ensures
            r == (self is SafeToRetry),
    {
        match self {
            CompensationError::SafeToRetry { .. } => true,
            _ => false,
        }
    }

    /// Check if the compensation left an ambiguous state.
    pub fn is_ambiguous(&self) -> (r: bool)
        ensures
            r == (self is Ambiguous),
    {
        match self {
            CompensationError::Ambiguous { .. } => true,
            _ => false,
        }
    }
}

} // verus!
