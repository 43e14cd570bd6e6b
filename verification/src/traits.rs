//! The participant contract: user-supplied step behaviour, dependency
//! declarations, and the retry policy.

use vstd::prelude::*;
use vstd::string::StringExecFns;

use crate::context::SagaContext;
use crate::errors::{CompensationError, StepError, StepOutput};
use crate::events::{clone_strings, str_views, vec_contains_string};

verus! {

/// The behaviour a participant supplies for its step of a saga.
///
/// The runtime invokes these callbacks and promises nothing about their
/// results; everything it does with a result is stated on the functions
/// that take the result as an argument.
pub trait SagaParticipant {
    /// Execute the forward step.
    fn execute_step(&mut self, context: &SagaContext, input: &Vec<u8>) -> Result<
        StepOutput,
        StepError,
    >;

    /// Execute the compensation (undo) of the step.
    fn compensate_step(&mut self, context: &SagaContext, compensation_data: &Vec<u8>) -> Result<
        (),
        CompensationError,
    >;

    /// Called after the saga completes successfully.
    fn on_saga_completed(&mut self, context: &SagaContext);

    /// Called after the saga fails.
    fn on_saga_failed(&mut self, context: &SagaContext, reason: &str);

    /// Called after this step's compensation completes.
    fn on_compensation_completed(&mut self, context: &SagaContext);

    /// Called when the saga is quarantined at this step.
    fn on_quarantined(&mut self, context: &SagaContext, reason: &str);
}

/// When does a step execute?
#[derive(Debug)]
pub enum DependencySpec {
    /// Execute when the saga starts (no dependencies).
    OnSagaStart,
    /// Execute after any of these steps completes.
    AnyOf(Vec<String>),
    /// Execute once all of these steps have completed.
    AllOf(Vec<String>),
    /// Execute after this specific step.
    After(String),
}

impl DependencySpec {
    /// Whether the completion of `completed_step` is one this dependency
    /// names, as a spec value. For `AllOf` this means the step is a member
    /// of the set; the runtime still waits for the whole set.
    pub open spec fn satisfied_by_view(&self, completed_step: Seq<char>) -> bool {
        match self {
            DependencySpec::OnSagaStart => false,
            DependencySpec::After(step) => step@ == completed_step,
            DependencySpec::AnyOf(steps) => str_views(steps@).contains(completed_step),
            DependencySpec::AllOf(steps) => str_views(steps@).contains(completed_step),
        }
    }

    /// The names this dependency mentions.
    pub open spec fn names_view(&self) -> Seq<Seq<char>> {
        match self {
            DependencySpec::OnSagaStart => Seq::empty(),
            DependencySpec::After(step) => seq![step@],
            DependencySpec::AnyOf(steps) => str_views(steps@),
            DependencySpec::AllOf(steps) => str_views(steps@),
        }
    }

    /// The names this dependency mentions, as owned strings.
    pub fn names(&self) -> (r: Vec<String>)
        ensures
            str_views(r@) == self.names_view(),
    {
        match self {
            DependencySpec::OnSagaStart => {
                let r: Vec<String> = Vec::new();
                proof {
                    assert(str_views(r@) =~= self.names_view());
                }
                r
            },
            DependencySpec::After(step) => {
                let mut r: Vec<String> = Vec::new();
                r.push(step.clone());
                proof {
                    assert(str_views(r@) =~= self.names_view());
                }
                r
            },
            DependencySpec::AnyOf(steps) => {
                let r = clone_strings(steps);
                proof {
                    assert(str_views(r@) =~= self.names_view());
                }
                r
            },
            DependencySpec::AllOf(steps) => {
                let r = clone_strings(steps);
                proof {
                    assert(str_views(r@) =~= self.names_view());
                }
                r
            },
        }
    }

    /// Check if a completed step satisfies this dependency.
    pub fn is_satisfied_by(&self, completed_step: &str) -> (r: bool)
        ensures
            r == self.satisfied_by_view(completed_step@),
    {
        let completed = completed_step.to_owned();
        match self {
            DependencySpec::OnSagaStart => false,
            DependencySpec::After(step) => *step == completed,
            DependencySpec::AnyOf(steps) => vec_contains_string(steps, &completed),
            DependencySpec::AllOf(steps) => vec_contains_string(steps, &completed),
        }
    }

    /// Check if this is `OnSagaStart`.
    pub fn is_on_saga_start(&self) -> (r: bool)
        ensures
            r == (self is OnSagaStart),
    {
        match self {
            DependencySpec::OnSagaStart => true,
            _ => false,
        }
    }
}

/// `base * multiplier^exponent`, the uncapped backoff product.
pub open spec fn spec_backoff(base: nat, multiplier: nat, exponent: nat) -> nat
    decreases exponent,
{
    if exponent == 0 {
        base
    } else {
        spec_backoff(base, multiplier, (exponent - 1) as nat) * multiplier
    }
}

/// The backoff product grows with the exponent when the multiplier is at
/// least one.
proof fn lemma_backoff_monotone(base: nat, multiplier: nat, e1: nat, e2: nat)
    requires
        multiplier >= 1,
        e1 <= e2,
    ensures
        spec_backoff(base, multiplier, e1) <= spec_backoff(base, multiplier, e2),
    decreases e2,
{
    if e1 < e2 {
        lemma_backoff_monotone(base, multiplier, e1, (e2 - 1) as nat);
        assert(spec_backoff(base, multiplier, (e2 - 1) as nat) * 1 <= spec_backoff(
            base,
            multiplier,
            (e2 - 1) as nat,
        ) * multiplier) by (nonlinear_arith)
            requires
                multiplier >= 1,
        ;
    }
}

/// Retry policy for step execution: exponential backoff with an integer
/// multiplier, capped at a maximum delay.
#[derive(Clone, Copy, PartialEq, Eq, Structural, Debug)]
pub struct RetryPolicy {
    /// Maximum number of attempts before the failure escalates.
    pub max_attempts: u32,
    /// Delay before the first retry (milliseconds).
    pub initial_delay_millis: u64,
    /// Cap on any delay (milliseconds).
    pub max_delay_millis: u64,
    /// Factor applied to the delay for each further retry.
    pub backoff_multiplier: u64,
}

impl Default for RetryPolicy {
    /// Three attempts, one second before the first retry, doubling, capped
    /// at thirty seconds.
    fn default() -> (r: Self)
        ensures
            r == (RetryPolicy {
                max_attempts: 3,
                initial_delay_millis: 1000,
                max_delay_millis: 30000,
                backoff_multiplier: 2,
            }),
    {
        RetryPolicy {
            max_attempts: 3,
            initial_delay_millis: 1000,
            max_delay_millis: 30000,
            backoff_multiplier: 2,
        }
    }
}

impl RetryPolicy {
    /// The delay this policy assigns to an attempt (1-indexed): the capped
    /// backoff product, and zero for attempt zero.
    pub open spec fn delay_view(&self, attempt: u32) -> u64 {
        if attempt == 0 {
            0
        } else {
            let product = spec_backoff(
                self.initial_delay_millis as nat,
                self.backoff_multiplier as nat,
                (attempt - 1) as nat,
            );
            if product > self.max_delay_millis {
                self.max_delay_millis
            } else {
                product as u64
            }
        }
    }

    /// Delay in milliseconds for a given attempt (1-indexed).
    pub fn delay_for_attempt(&self, attempt: u32) -> (r: u64)
        ensures
            r == self.delay_view(attempt),
    {
        if attempt == 0 {
            return 0;
        }
        let mut delay: u64 = self.initial_delay_millis;
        let mut done: u32 = 0;
        let target = attempt - 1;
        while done < target
            invariant
                attempt >= 1,
                target == attempt - 1,
                done <= target,
                delay == spec_backoff(
                    self.initial_delay_millis as nat,
                    self.backoff_multiplier as nat,
                    done as nat,
                ),
            decreases target - done,
        {
            if self.backoff_multiplier == 0 {
                proof {
                    assert(spec_backoff(
                        self.initial_delay_millis as nat,
                        self.backoff_multiplier as nat,
                        (done + 1) as nat,
                    ) == 0);
                    lemma_backoff_zero(
                        self.initial_delay_millis as nat,
                        (done + 1) as nat,
                        target as nat,
                    );
                }
                return 0;
            }
            if delay > self.max_delay_millis / self.backoff_multiplier {
                proof {
                    lemma_div_cross(delay, self.backoff_multiplier, self.max_delay_millis);
                    lemma_backoff_monotone(
                        self.initial_delay_millis as nat,
                        self.backoff_multiplier as nat,
                        (done + 1) as nat,
                        target as nat,
                    );
                }
                return self.max_delay_millis;
            }
            proof {
                lemma_mul_bound(delay, self.backoff_multiplier, self.max_delay_millis);
            }
            delay = delay * self.backoff_multiplier;
            done = done + 1;
        }
        if delay > self.max_delay_millis {
            self.max_delay_millis
        } else {
            delay
        }
    }
}

/// With a zero multiplier every later backoff product is zero.
proof fn lemma_backoff_zero(base: nat, e1: nat, e2: nat)
    requires
        e1 >= 1,
        e1 <= e2,
    ensures
        spec_backoff(base, 0, e2) == 0,
    decreases e2,
{
    if e2 > e1 {
        lemma_backoff_zero(base, e1, (e2 - 1) as nat);
    }
}

/// `a > c / b` implies `a * b > c` for positive `b` (integer division).
proof fn lemma_div_cross(a: u64, b: u64, c: u64)
    requires
        b >= 1,
        a > c / b,
    ensures
        a * b > c,
{
    assert(c == (c / b) * b + c % b && c % b < b) by (nonlinear_arith)
        requires
            b >= 1,
    ;
    assert(a * b >= ((c / b) + 1) * b) by (nonlinear_arith)
        requires
            a >= (c / b) + 1 && b >= 1,
    ;
    assert(((c / b) + 1) * b == (c / b) * b + b) by (nonlinear_arith);
}

/// `a <= c / b` bounds the product `a * b` by `c`, so it fits in the
/// range.
proof fn lemma_mul_bound(a: u64, b: u64, c: u64)
    requires
        b >= 1,
        a <= c / b,
    ensures
        a * b <= c,
{
    assert(a * b <= (c / b) * b) by (nonlinear_arith)
        requires
            a <= c / b && b >= 1,
    ;
    assert((c / b) * b <= c) by (nonlinear_arith)
        requires
            b >= 1,
    ;
}

} // verus!
