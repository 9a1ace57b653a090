//! The liquidation executor: decides the liquidation amount and drives one
//! execution attempt through submission, retry and outcome.
//!
//! The executor is a state machine over plain values. The surrounding
//! binary performs each step's outside work — building, signing and
//! submitting the ledger transaction, sleeping between attempts — and hands
//! the outcome back; every decision in between is made and proved here. The
//! driver claims the position (`PositionRegistry::try_begin_liquidation`)
//! before acting and records the cooldown in the registry only on success.

use vstd::prelude::*;
use crate::error::LiquidationError;
use crate::math::lemma_div_lt_iff;
use crate::position::Position;
use crate::types::{LiquidationConfig, LiquidationResult, SkipReason, MAX_AMOUNT};

verus! {

/// One liquidation the engine has decided on, ready for submission.
#[derive(Debug)]
pub struct LiquidationRequest {
    /// The position to liquidate.
    pub position: Position,
    /// Amount to liquidate, in micro-units of the base currency.
    pub amount: u64,
    /// The vetted price the decision was made at, in micro-units.
    pub vetted_price: u64,
    /// Slippage tolerance for the submission, in basis points.
    pub max_slippage_bps: u16,
    /// Priority fee for the submission, in micro-lamports per compute unit.
    pub priority_fee_micro_lamports: u64,
}

impl Clone for LiquidationRequest {
    /// Clones every field unchanged.
    fn clone(&self) -> (r: Self)
        ensures
            r == *self,
    {
        LiquidationRequest {
            position: self.position.clone(),
            amount: self.amount,
            vetted_price: self.vetted_price,
            max_slippage_bps: self.max_slippage_bps,
            priority_fee_micro_lamports: self.priority_fee_micro_lamports,
        }
    }
}

/// State of one execution attempt between steps.
#[derive(Debug, Clone, Copy)]
pub struct ExecutionState {
    /// Address of the claimed position.
    pub position_address: u64,
    /// Amount being liquidated, in micro-units.
    pub amount: u64,
    /// Submissions made so far.
    pub attempts_made: u8,
}

/// What the driver must do next for this execution.
#[derive(Debug)]
pub enum ExecutorStep {
    /// Build and submit the liquidation transaction, then report the
    /// outcome through `on_submission_outcome`.
    Submit,
    /// Fetch a fresh observation, vet it, and report through
    /// `on_revalidated_price`: the price may have moved since the last
    /// attempt.
    RevalidatePrice,
    /// The execution is over; fold this outcome back.
    Done(LiquidationResult),
}

/// How one submission ended, as reported by the ledger client.
#[derive(Debug)]
pub enum SubmissionOutcome {
    /// The transaction confirmed under this reference.
    Confirmed { signature: String },
    /// The ledger client rejected or failed the submission.
    Rejected { error: LiquidationError },
    /// Confirmation did not arrive in time.
    TimedOut,
}

/// The share of `size` one attempt liquidates: `max_liquidation_percent`
/// of it when partial liquidations are enabled, all of it otherwise.
pub open spec fn spec_planned_amount(size: u64, config: LiquidationConfig) -> int {
    if config.enable_partial_liquidations {
        (size * config.max_liquidation_percent) / 100
    } else {
        size as int
    }
}

/// Decides how much of a position one attempt liquidates. Never more than
/// the position's size, and exactly its size when partial liquidations are
/// disabled.
pub fn plan_liquidation_amount(size: u64, config: &LiquidationConfig) -> (r: u64)
    requires
        config.wf(),
    ensures
        r == spec_planned_amount(size, *config),
        r <= size,
        !config.enable_partial_liquidations ==> r == size,
{
    if config.enable_partial_liquidations {
        proof {
            assert((size as int) * (config.max_liquidation_percent as int) <= (size as int) * 100
                < u128::MAX) by (nonlinear_arith)
                requires
                    0 <= size <= u64::MAX,
                    0 <= config.max_liquidation_percent <= 100,
            ;
            lemma_div_lt_iff(
                (size as int) * (config.max_liquidation_percent as int),
                100,
                size as int + 1,
            );
            assert((size as int) * (config.max_liquidation_percent as int) < 100 * (size as int
                + 1)) by (nonlinear_arith)
                requires
                    0 <= size,
                    0 <= config.max_liquidation_percent <= 100,
            ;
        }
        let planned: u128 = (size as u128) * (config.max_liquidation_percent as u128) / 100;
        planned as u64
    } else {
        size
    }
}

/// Starts one execution attempt for an under-collateralization decision.
/// The under-collateralization check runs once more right here, at the
/// execution boundary, as the last line of defense against a price that
/// moved between decision and submission; a healthy position is skipped,
/// never submitted. In dry-run mode nothing is ever submitted: the outcome
/// is a skip, and the driver records no cooldown for it.
pub fn begin_execution(position: &Position, vetted_price: u64, config: &LiquidationConfig) -> (r:
    (ExecutionState, ExecutorStep))
    requires
        position.wf(),
        vetted_price <= MAX_AMOUNT,
        config.wf(),
    ensures
        r.0.position_address == position.address,
        r.0.amount == spec_planned_amount(position.size, *config),
        r.0.attempts_made == 0,
        !position.spec_is_undercollateralized(vetted_price, config.maintenance_margin_ppm) ==> r.1
            == ExecutorStep::Done(
            LiquidationResult::Skipped {
                position: position.address,
                reason: SkipReason::NotLiquidatable,
            },
        ),
        position.spec_is_undercollateralized(vetted_price, config.maintenance_margin_ppm)
            && config.dry_run ==> r.1 == ExecutorStep::Done(
            LiquidationResult::Skipped { position: position.address, reason: SkipReason::DryRun },
        ),
        position.spec_is_undercollateralized(vetted_price, config.maintenance_margin_ppm)
            && !config.dry_run ==> r.1 == ExecutorStep::Submit,
    {
        let amount: u64 = plan_liquidation_amount(position.size, config);
        let state = ExecutionState {
            position_address: position.address,
            amount,
            attempts_made: 0,
        };
        if !position.is_undercollateralized(vetted_price, config.maintenance_margin_ppm) {
            let step = ExecutorStep::Done(
                LiquidationResult::Skipped {
                    position: position.address,
                    reason: SkipReason::NotLiquidatable,
                },
            );
            (state, step)
        } else if config.dry_run {
            let step = ExecutorStep::Done(
                LiquidationResult::Skipped {
                    position: position.address,
                    reason: SkipReason::DryRun,
                },
            );
            (state, step)
        } else {
            (state, ExecutorStep::Submit)
        }
    }

/// Folds one submission outcome into the execution. A confirmation ends
/// the execution successfully with the attempt's amount and reference. A
/// rejection or timeout consumes one attempt: while attempts remain the
/// price is revalidated and the submission retried, and when the
/// configured bound is exhausted the execution fails with the terminal
/// error and the number of attempts made.
pub fn on_submission_outcome(
    state: &mut ExecutionState,
    outcome: SubmissionOutcome,
    config: &LiquidationConfig,
) -> (r: ExecutorStep)
    requires
        old(state).attempts_made < config.max_retries,
    ensures
        final(state).position_address == old(state).position_address,
        final(state).amount == old(state).amount,
        final(state).attempts_made == old(state).attempts_made + 1,
        outcome matches SubmissionOutcome::Confirmed { signature } ==> r == ExecutorStep::Done(
            LiquidationResult::Success {
                position: old(state).position_address,
                amount: old(state).amount,
                signature,
            },
        ),
        outcome matches SubmissionOutcome::Rejected { error } ==> if old(state).attempts_made + 1
            < config.max_retries {
            r == ExecutorStep::RevalidatePrice
        } else {
            r == ExecutorStep::Done(
                LiquidationResult::Failure {
                    position: old(state).position_address,
                    error,
                    attempts: (old(state).attempts_made + 1) as u8,
                },
            )
        },
        outcome is TimedOut ==> if old(state).attempts_made + 1 < config.max_retries {
            r == ExecutorStep::RevalidatePrice
        } else {
            r == ExecutorStep::Done(
                LiquidationResult::Failure {
                    position: old(state).position_address,
                    error: LiquidationError::ConfirmationTimeout,
                    attempts: (old(state).attempts_made + 1) as u8,
                },
            )
        },
{
    state.attempts_made = state.attempts_made + 1;
    match outcome {
        SubmissionOutcome::Confirmed { signature } => ExecutorStep::Done(
            LiquidationResult::Success {
                position: state.position_address,
                amount: state.amount,
                signature,
            },
        ),
        SubmissionOutcome::Rejected { error } => {
            if state.attempts_made < config.max_retries {
                ExecutorStep::RevalidatePrice
            } else {
                ExecutorStep::Done(
                    LiquidationResult::Failure {
                        position: state.position_address,
                        error,
                        attempts: state.attempts_made,
                    },
                )
            }
        },
        SubmissionOutcome::TimedOut => {
            if state.attempts_made < config.max_retries {
                ExecutorStep::RevalidatePrice
            } else {
                ExecutorStep::Done(
                    LiquidationResult::Failure {
                        position: state.position_address,
                        error: LiquidationError::ConfirmationTimeout,
                        attempts: state.attempts_made,
                    },
                )
            }
        },
    }
}

/// Folds a revalidated price into the execution, between two submission
/// attempts. A guard rejection skips the rest of the attempts — an oracle
/// error is never an execution failure — and so does a price at which the
/// position is no longer under-collateralized; only a price that still
/// flags the position leads back to submission.
pub fn on_revalidated_price(
    state: &ExecutionState,
    position: &Position,
    vetted: Result<u64, LiquidationError>,
    config: &LiquidationConfig,
) -> (r: ExecutorStep)
    requires
        position.wf(),
        position.address == state.position_address,
        config.wf(),
        vetted matches Ok(p) ==> p <= MAX_AMOUNT,
    ensures
        vetted matches Err(e) ==> r == ExecutorStep::Done(
            LiquidationResult::Skipped {
                position: state.position_address,
                reason: SkipReason::PriceRejected(e),
            },
        ),
        vetted matches Ok(p) && !position.spec_is_undercollateralized(
            p,
            config.maintenance_margin_ppm,
        ) ==> r == ExecutorStep::Done(
            LiquidationResult::Skipped {
                position: state.position_address,
                reason: SkipReason::NotLiquidatable,
            },
        ),
        vetted matches Ok(p) && position.spec_is_undercollateralized(
            p,
            config.maintenance_margin_ppm,
        ) ==> r == ExecutorStep::Submit,
{
    match vetted {
        Err(e) => ExecutorStep::Done(
            LiquidationResult::Skipped {
                position: state.position_address,
                reason: SkipReason::PriceRejected(e),
            },
        ),
        Ok(p) => {
            if position.is_undercollateralized(p, config.maintenance_margin_ppm) {
                ExecutorStep::Submit
            } else {
                ExecutorStep::Done(
                    LiquidationResult::Skipped {
                        position: state.position_address,
                        reason: SkipReason::NotLiquidatable,
                    },
                )
            }
        },
    }
}

} // verus!
