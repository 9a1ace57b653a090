//! The liquidation engine: configuration, registry and the per-tick
//! evaluation pipeline tying the price guard, the risk arithmetic and the
//! executor decision together.
//!
//! The engine is fed plain values: a snapshot of oracle observations per
//! symbol and the current time. The surrounding binary fetches the
//! observations, drives the tick interval, submits the liquidations the
//! engine decides on, and folds outcomes back through the registry.

use vstd::prelude::*;
use crate::error::LiquidationError;
use crate::executor::{plan_liquidation_amount, spec_planned_amount, LiquidationRequest};
use crate::oracle::{current_unix_time, vet_outcome_matches, vet_price, OracleConfig,
    RawObservation};
use crate::position::Position;
use crate::registry::{spec_contains_address, spec_index_of, MonitoredPosition, PositionRegistry};
use crate::scheduler::{evaluation_eligibility, spec_eligibility};
use crate::types::{LiquidationConfig, LiquidationResult, PositionStatus, SkipReason};

verus! {

/// What one evaluated position turns into: a report for the operator, or
/// a liquidation request for the executor to submit.
#[derive(Debug)]
pub enum EvaluationOutcome {
    /// The position is not liquidated this tick; the record says why.
    Report(LiquidationResult),
    /// The position is to be liquidated: the driver claims it in the
    /// registry and drives the executor steps for this request.
    Dispatch(LiquidationRequest),
}

/// The oracle's current observation for one symbol, or `None` when the
/// source failed to deliver one this tick.
#[derive(Debug)]
pub struct SymbolObservation {
    /// The trading pair the observation is for.
    pub symbol: String,
    /// The observation, if the source delivered one.
    pub observation: Option<RawObservation>,
}

impl Clone for SymbolObservation {
    /// Clones both fields unchanged.
    fn clone(&self) -> (r: Self)
        ensures
            r == *self,
    {
        SymbolObservation { symbol: self.symbol.clone(), observation: self.observation }
    }
}

/// The index of the feed entry for `symbol`, or a negative value when the
/// feed has none.
pub open spec fn spec_feed_index_of(s: Seq<SymbolObservation>, symbol: Seq<char>) -> int
    decreases s.len(),
{
    if s.len() == 0 {
        -1
    } else if s.last().symbol@ == symbol {
        s.len() - 1
    } else {
        spec_feed_index_of(s.drop_last(), symbol)
    }
}

/// The observation the feed carries for `symbol`: the entry's observation
/// when the feed has the symbol, `None` otherwise.
pub open spec fn spec_feed_lookup(s: Seq<SymbolObservation>, symbol: Seq<char>) -> Option<
    RawObservation,
> {
    let i = spec_feed_index_of(s, symbol);
    if i >= 0 {
        s[i].observation
    } else {
        None
    }
}

/// No two feed entries carry the same symbol: the feed stands for one
/// price book per tick.
pub open spec fn feed_symbols_unique(s: Seq<SymbolObservation>) -> bool {
    forall|i: int, j: int| 0 <= i < j < s.len() ==> s[i].symbol@ != s[j].symbol@
}

/// A found feed index is in range and carries the symbol.
proof fn lemma_feed_index_of_found(s: Seq<SymbolObservation>, symbol: Seq<char>)
    requires
        spec_feed_index_of(s, symbol) >= 0,
    ensures
        spec_feed_index_of(s, symbol) < s.len(),
        s[spec_feed_index_of(s, symbol)].symbol@ == symbol,
    decreases s.len(),
{
    if s.len() > 0 && s.last().symbol@ != symbol {
        lemma_feed_index_of_found(s.drop_last(), symbol);
    }
}

/// A negative feed index means no entry carries the symbol.
proof fn lemma_feed_index_of_absent(s: Seq<SymbolObservation>, symbol: Seq<char>)
    requires
        spec_feed_index_of(s, symbol) < 0,
    ensures
        forall|i: int| 0 <= i < s.len() ==> (#[trigger] s[i]).symbol@ != symbol,
    decreases s.len(),
{
    if s.len() > 0 {
        lemma_feed_index_of_absent(s.drop_last(), symbol);
        assert(forall|i: int| 0 <= i < s.len() - 1 ==> s.drop_last()[i] == (#[trigger] s[i]));
    }
}

/// Under unique symbols, any entry carrying the symbol stands at the found
/// index.
proof fn lemma_feed_index_of_is_unique_match(s: Seq<SymbolObservation>, symbol: Seq<char>, i: int)
    requires
        feed_symbols_unique(s),
        0 <= i < s.len(),
        s[i].symbol@ == symbol,
    ensures
        spec_feed_index_of(s, symbol) == i,
{
    if spec_feed_index_of(s, symbol) < 0 {
        lemma_feed_index_of_absent(s, symbol);
    } else {
        lemma_feed_index_of_found(s, symbol);
    }
}

/// Looks the symbol up in the tick's price book.
fn find_observation(feed: &Vec<SymbolObservation>, symbol: &String) -> (r: Option<RawObservation>)
    requires
        feed_symbols_unique(feed@),
    ensures
        r == spec_feed_lookup(feed@, symbol@),
{
    let n: usize = feed.len();
    let mut i: usize = 0;
    while i < n
        invariant
            i <= n == feed@.len(),
            feed_symbols_unique(feed@),
            forall|j: int| 0 <= j < i ==> (#[trigger] feed@[j]).symbol@ != symbol@,
        decreases n - i,
    {
        if feed[i].symbol == *symbol {
            proof {
                lemma_feed_index_of_is_unique_match(feed@, symbol@, i as int);
            }
            return feed[i].observation;
        }
        i = i + 1;
    }
    proof {
        if spec_feed_index_of(feed@, symbol@) >= 0 {
            lemma_feed_index_of_found(feed@, symbol@);
        }
    }
    None
}

/// What evaluating one position against the price guard promises of the
/// outcome, once the position has passed the guard: a rejected price skips
/// the position with that rejection, a healthy position is skipped as not
/// liquidatable, dry-run mode skips it without submission, and only an
/// under-collateralized position with a live configuration becomes a
/// liquidation request carrying the planned amount and the vetted price.
pub open spec fn post_vet_outcome_matches(
    p: Position,
    vetted: Result<u64, LiquidationError>,
    config: LiquidationConfig,
    r: EvaluationOutcome,
) -> bool {
    match vetted {
        Err(e) => r == EvaluationOutcome::Report(
            LiquidationResult::Skipped {
                position: p.address,
                reason: SkipReason::PriceRejected(e),
            },
        ),
        Ok(price) => if !p.spec_is_undercollateralized(price, config.maintenance_margin_ppm) {
            r == EvaluationOutcome::Report(
                LiquidationResult::Skipped {
                    position: p.address,
                    reason: SkipReason::NotLiquidatable,
                },
            )
        } else if config.dry_run {
            r == EvaluationOutcome::Report(
                LiquidationResult::Skipped { position: p.address, reason: SkipReason::DryRun },
            )
        } else {
            &&& r matches EvaluationOutcome::Dispatch(req)
            &&& req.position == p
            &&& req.amount == spec_planned_amount(p.size, config)
            &&& req.vetted_price == price
            &&& req.max_slippage_bps == config.max_slippage_bps
            &&& req.priority_fee_micro_lamports == config.priority_fee_micro_lamports
        },
    }
}

/// What evaluating one position promises of the outcome: a missing
/// observation skips the position with an oracle error for its symbol, and
/// a present one goes through the price guard, whose verdict the outcome
/// follows as [`post_vet_outcome_matches`] says.
pub open spec fn evaluation_outcome_matches(
    p: Position,
    observation: Option<RawObservation>,
    now: i64,
    config: LiquidationConfig,
    oracle_config: OracleConfig,
    r: EvaluationOutcome,
) -> bool {
    match observation {
        None => r matches EvaluationOutcome::Report(res) && (res matches
            LiquidationResult::Skipped { position, reason } && position == p.address && (
        reason matches SkipReason::PriceRejected(e) && (e matches LiquidationError::OracleError(s)
            && s@ == p.symbol@))),
        Some(obs) => exists|vetted: Result<u64, LiquidationError>|
            #[trigger] vet_outcome_matches(p.symbol@, obs, now, oracle_config, vetted)
                && post_vet_outcome_matches(p, vetted, config, r),
    }
}

/// Evaluates one position against this tick's observation for its symbol:
/// the price guard first — never bypassed, dry-run included — then the
/// under-collateralization decision at the vetted price, then the dry-run
/// policy; only then is a liquidation request issued.
pub fn evaluate_position(
    position: &Position,
    observation: Option<RawObservation>,
    now: i64,
    config: &LiquidationConfig,
    oracle_config: &OracleConfig,
) -> (r: EvaluationOutcome)
    requires
        position.wf(),
        config.wf(),
    ensures
        evaluation_outcome_matches(*position, observation, now, *config, *oracle_config, r),
{
    match observation {
        None => EvaluationOutcome::Report(
            LiquidationResult::Skipped {
                position: position.address,
                reason: SkipReason::PriceRejected(
                    LiquidationError::OracleError(position.symbol.clone()),
                ),
            },
        ),
        Some(obs) => {
            let vetted = vet_price(position.symbol.as_str(), &obs, now, oracle_config);
            let ghost gv = vetted;
            let out = match vetted {
                Err(e) => EvaluationOutcome::Report(
                    LiquidationResult::Skipped {
                        position: position.address,
                        reason: SkipReason::PriceRejected(e),
                    },
                ),
                Ok(price) => {
                    if !position.is_undercollateralized(price, config.maintenance_margin_ppm) {
                        EvaluationOutcome::Report(
                            LiquidationResult::Skipped {
                                position: position.address,
                                reason: SkipReason::NotLiquidatable,
                            },
                        )
                    } else if config.dry_run {
                        EvaluationOutcome::Report(
                            LiquidationResult::Skipped {
                                position: position.address,
                                reason: SkipReason::DryRun,
                            },
                        )
                    } else {
                        EvaluationOutcome::Dispatch(
                            LiquidationRequest {
                                position: position.clone(),
                                amount: plan_liquidation_amount(position.size, config),
                                vetted_price: price,
                                max_slippage_bps: config.max_slippage_bps,
                                priority_fee_micro_lamports: config.priority_fee_micro_lamports,
                            },
                        )
                    }
                },
            };
            proof {
                assert(vet_outcome_matches(
                    position.symbol@,
                    obs,
                    now,
                    *oracle_config,
                    gv,
                ) && post_vet_outcome_matches(*position, gv, *config, out));
            }
            out
        },
    }
}

/// What one tick promises for each registry entry: an entry the scheduler
/// excludes is reported skipped with the scheduler's reason, and an entry
/// it selects is evaluated against the feed's observation for its symbol.
pub open spec fn tick_outcome_matches(
    entry: MonitoredPosition,
    feed: Seq<SymbolObservation>,
    now: i64,
    config: LiquidationConfig,
    oracle_config: OracleConfig,
    r: EvaluationOutcome,
) -> bool {
    match spec_eligibility(entry, now, config) {
        Some(reason) => r == EvaluationOutcome::Report(
            LiquidationResult::Skipped { position: entry.position.address, reason },
        ),
        None => evaluation_outcome_matches(
            entry.position,
            spec_feed_lookup(feed, entry.position.symbol@),
            now,
            config,
            oracle_config,
            r,
        ),
    }
}

/// The monitoring-and-liquidation engine: the validated configuration, the
/// guard policy, and the registry of monitored positions.
#[derive(Debug)]
pub struct LiquidationEngine {
    /// The engine configuration; validated at construction, immutable
    /// afterwards.
    pub config: LiquidationConfig,
    /// The price guard policy.
    pub oracle_config: OracleConfig,
    /// The monitored positions.
    pub registry: PositionRegistry,
}

impl LiquidationEngine {
    /// Engine invariant: the configuration is valid and the registry
    /// well-formed.
    pub open spec fn wf(&self) -> bool {
        &&& self.config.wf()
        &&& self.registry.wf()
    }

    /// A fresh engine monitoring nothing. Configuration-domain errors are
    /// fatal at startup: callers validate the configuration first and
    /// never hand an invalid one in.
    pub fn new(config: LiquidationConfig, oracle_config: OracleConfig) -> (r: LiquidationEngine)
        requires
            config.wf(),
        ensures
            r.wf(),
            r.config == config,
            r.oracle_config == oracle_config,
            r.registry@.len() == 0,
    {
        LiquidationEngine { config, oracle_config, registry: PositionRegistry::new() }
    }

    /// The engine's configuration.
    pub fn config(&self) -> (r: &LiquidationConfig)
        ensures
            *r == self.config,
    {
        &self.config
    }

    /// Starts monitoring `position`, replacing any tracked state monitored
    /// under the same address.
    pub fn add_position(&mut self, position: Position)
        requires
            old(self).wf(),
            position.wf(),
        ensures
            final(self).wf(),
            final(self).config == old(self).config,
            final(self).oracle_config == old(self).oracle_config,
            spec_contains_address(old(self).registry@, position.address)
                ==> final(self).registry@ == old(self).registry@.update(
                spec_index_of(old(self).registry@, position.address),
                MonitoredPosition { position, status: PositionStatus::Active },
            ),
            !spec_contains_address(old(self).registry@, position.address)
                ==> final(self).registry@ == old(self).registry@.push(
                MonitoredPosition { position, status: PositionStatus::Active },
            ),
    {
        self.registry.add(position);
    }

    /// Stops monitoring the position at `address`.
    pub fn remove_position(&mut self, address: u64)
        requires
            old(self).wf(),
        ensures
            final(self).wf(),
            final(self).config == old(self).config,
            final(self).oracle_config == old(self).oracle_config,
            spec_contains_address(old(self).registry@, address)
                ==> final(self).registry@ == old(self).registry@.remove(
                spec_index_of(old(self).registry@, address),
            ),
            !spec_contains_address(old(self).registry@, address)
                ==> final(self).registry@ == old(self).registry@,
    {
        self.registry.remove(address);
    }

    /// Evaluates every monitored position against this tick's price book,
    /// producing one outcome per registry entry, in registry order: a skip
    /// report or a liquidation request, as [`tick_outcome_matches`] says.
    /// The caller performs the submissions of the dispatched requests and
    /// folds their outcomes back.
    pub fn check_positions(&self, feed: &Vec<SymbolObservation>, now: i64) -> (r: Vec<
        EvaluationOutcome,
    >)
        requires
            self.wf(),
            feed_symbols_unique(feed@),
        ensures
            r@.len() == self.registry@.len(),
            forall|k: int|
                0 <= k < r@.len() ==> tick_outcome_matches(
                    self.registry@[k],
                    feed@,
                    now,
                    self.config,
                    self.oracle_config,
                    #[trigger] r@[k],
                ),
    {
        let snapshot = self.registry.snapshot();
        let n: usize = snapshot.len();
        let mut out: Vec<EvaluationOutcome> = Vec::new();
        let mut i: usize = 0;
        while i < n
            invariant
                i <= n == snapshot@.len(),
                snapshot@ == self.registry@,
                self.wf(),
                feed_symbols_unique(feed@),
                out@.len() == i,
                forall|k: int|
                    0 <= k < i ==> tick_outcome_matches(
                        self.registry@[k],
                        feed@,
                        now,
                        self.config,
                        self.oracle_config,
                        #[trigger] out@[k],
                    ),
            decreases n - i,
        {
            let entry = &snapshot[i];
            let outcome = match evaluation_eligibility(entry, now, &self.config) {
                Some(reason) => EvaluationOutcome::Report(
                    LiquidationResult::Skipped { position: entry.position.address, reason },
                ),
                None => {
                    let observation = find_observation(feed, &entry.position.symbol);
                    evaluate_position(
                        &entry.position,
                        observation,
                        now,
                        &self.config,
                        &self.oracle_config,
                    )
                },
            };
            out.push(outcome);
            i = i + 1;
        }
        out
    }

    /// Evaluates every monitored position at the current wall-clock time,
    /// which is returned beside the outcomes.
    pub fn check_positions_now(&self, feed: &Vec<SymbolObservation>) -> (r: (Vec<
        EvaluationOutcome,
    >, i64))
        requires
            self.wf(),
            feed_symbols_unique(feed@),
        ensures
            r.0@.len() == self.registry@.len(),
            forall|k: int|
                0 <= k < r.0@.len() ==> tick_outcome_matches(
                    self.registry@[k],
                    feed@,
                    r.1,
                    self.config,
                    self.oracle_config,
                    #[trigger] r.0@[k],
                ),
    {
        let now: i64 = current_unix_time();
        (self.check_positions(feed, now), now)
    }
}

} // verus!
