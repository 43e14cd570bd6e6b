//! Idempotency key generation for saga steps.
//!
//! Participants performing external calls use these keys to deduplicate
//! their own side effects across redelivery and crash replay.

use vstd::prelude::*;
use vstd::string::StringExecFns;

use crate::context::SagaId;
use crate::decimal::{spec_dec, u64_to_dec};

verus! {

/// The canonical key for one execution attempt of a step.
pub open spec fn step_key_view(saga_id: SagaId, step_name: Seq<char>, attempt: u32) -> Seq<char> {
    "saga:"@ + spec_dec(saga_id.0 as nat) + ":step:"@ + step_name + ":attempt:"@ + spec_dec(
        attempt as nat,
    )
}

/// The canonical key for the compensation of a step.
pub open spec fn compensation_key_view(saga_id: SagaId, step_name: Seq<char>) -> Seq<char> {
    "saga:"@ + spec_dec(saga_id.0 as nat) + ":compensate:"@ + step_name
}

/// Idempotency key for deduplicating side effects.
#[derive(Clone, PartialEq, Eq, Hash, Debug)]
pub struct IdempotencyKey(pub String);

impl IdempotencyKey {
    /// Create an idempotency key for a step execution attempt.
    pub fn for_step(saga_id: SagaId, step_name: &str, attempt: u32) -> (r: Self)
        ensures
            r.0@ == step_key_view(saga_id, step_name@, attempt),
    {
        let key = String::from_str("saga:").concat(u64_to_dec(saga_id.0).as_str()).concat(
            ":step:",
        ).concat(step_name).concat(":attempt:").concat(u64_to_dec(attempt as u64).as_str());
        proof {
            assert(key@ =~= step_key_view(saga_id, step_name@, attempt));
        }
        IdempotencyKey(key)
    }

    /// Create an idempotency key for the compensation of a step.
    pub fn for_compensation(saga_id: SagaId, step_name: &str) -> (r: Self)
        ensures
            r.0@ == compensation_key_view(saga_id, step_name@),
    {
        let key = String::from_str("saga:").concat(u64_to_dec(saga_id.0).as_str()).concat(
            ":compensate:",
        ).concat(step_name);
        proof {
            assert(key@ =~= compensation_key_view(saga_id, step_name@));
        }
        IdempotencyKey(key)
    }

    /// The key as a string slice.
    pub fn as_str(&self) -> (r: &str)
        ensures
            r@ == self.0@,
    {
        self.0.as_str()
    }
}

} // verus!
