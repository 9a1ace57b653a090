//! Monitoring and liquidation engine for leveraged positions tracked on an
//! external ledger.
//!
//! The engine keeps a registry of positions, vets oracle prices through a
//! staleness and confidence guard, decides which positions are
//! under-collateralized, and drives a retry-with-cooldown execution protocol
//! for the liquidations it decides on. All amounts are fixed-point integers
//! in micro-units and all ratios are in parts per million; the surrounding
//! binary performs the ledger and oracle I/O and feeds plain values in.

mod engine;
mod error;
mod executor;
mod math;
mod oracle;
mod position;
mod registry;
mod scheduler;
mod types;

pub use engine::{
    evaluate_position, evaluation_outcome_matches, feed_symbols_unique, post_vet_outcome_matches,
    spec_feed_index_of, spec_feed_lookup, tick_outcome_matches, EvaluationOutcome,
    LiquidationEngine, SymbolObservation,
};
pub use error::{ErrorDomain, LiquidationError};
pub use executor::{
    begin_execution, on_revalidated_price, on_submission_outcome, plan_liquidation_amount,
    spec_planned_amount, ExecutionState, ExecutorStep, LiquidationRequest, SubmissionOutcome,
};
pub use oracle::{
    lemma_vet_rejects_confidence_outside_band, lemma_vet_rejects_stale, pow10, scale_to_micro,
    spec_scaled_to_micro, vet_outcome_matches, vet_price, vet_price_now, OracleConfig,
    RawObservation,
};
pub use position::{
    lemma_healthy_position_not_undercollateralized, lemma_liquidation_price_brackets_entry,
    Position, BASE_MAINTENANCE_MARGIN_PPM, MAX_NOTIONAL, MAX_SIZE_IMPACT_PPM,
    SIZE_IMPACT_REFERENCE,
};
pub use registry::{
    addresses_unique, entries_wf, lemma_at_most_one_in_flight, spec_contains_address,
    spec_entry_for, spec_index_of, MonitoredPosition, PositionRegistry,
};
pub use scheduler::{
    evaluation_eligibility, lemma_cooldown_blocks_evaluation, lemma_cooldown_blocks_redispatch,
    partition_batches, select_for_evaluation, spec_eligibility, spec_in_cooldown, spec_selected,
    spec_symbol_listed,
};
pub use types::{
    LiquidationConfig, LiquidationEvent, LiquidationResult, PositionStatus, PositionUpdate,
    SkipReason, AMOUNT_SCALE, MAX_AMOUNT, RATIO_SCALE,
};
