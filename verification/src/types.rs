//! Core value types: fixed-point units, the position status machine, the
//! engine configuration and the per-position outcome records.

use vstd::prelude::*;
use crate::error::LiquidationError;

verus! {

/// Sizes, prices and margins are fixed-point numbers counted in micro-units:
/// one whole unit of the base or quote currency is `AMOUNT_SCALE` micro-units.
pub const AMOUNT_SCALE: u64 = 1_000_000;

/// Ratios (margin ratio, maintenance margin, confidence ratio) are counted in
/// parts per million: a ratio of one is `RATIO_SCALE`.
pub const RATIO_SCALE: u64 = 1_000_000;

/// Upper bound on any size, price or margin the engine accepts, in
/// micro-units. The bound keeps every intermediate product of the risk
/// arithmetic inside 128 bits.
pub const MAX_AMOUNT: u64 = 1_000_000_000_000_000;

/// Status of a monitored position.
#[derive(Debug, Clone, Copy, PartialEq, Eq, Structural)]
pub enum PositionStatus {
    /// Healthy and monitored.
    Active,
    /// Margin ratio fell below the maintenance margin; no execution attempt
    /// has committed yet.
    AtRisk,
    /// A liquidation attempt is in flight; the position must not be
    /// dispatched again until the attempt resolves.
    Liquidating,
    /// Fully liquidated; terminal.
    Liquidated,
    /// No longer tracked.
    Closed,
}

impl PositionStatus {
    /// The edges of the status machine:
    /// `Active -> AtRisk -> Liquidating -> {Liquidated | Active}`, and
    /// `Active/AtRisk -> Closed` on removal. A status may also restate
    /// itself; `Liquidated` and `Closed` are terminal.
    pub open spec fn spec_can_transition(self, to: PositionStatus) -> bool {
        ||| self == to
        ||| (self == PositionStatus::Active && to == PositionStatus::AtRisk)
        ||| (self == PositionStatus::AtRisk && to == PositionStatus::Liquidating)
        ||| (self == PositionStatus::Liquidating && to == PositionStatus::Liquidated)
        ||| (self == PositionStatus::Liquidating && to == PositionStatus::Active)
        ||| (self == PositionStatus::Active && to == PositionStatus::Closed)
        ||| (self == PositionStatus::AtRisk && to == PositionStatus::Closed)
    }

    /// Whether the status machine allows moving from `self` to `to`.
    pub fn can_transition(self, to: PositionStatus) -> (r: bool)
        ensures
            r == self.spec_can_transition(to),
    {
        match (self, to) {
            (a, b) if a == b => true,
            (PositionStatus::Active, PositionStatus::AtRisk) => true,
            (PositionStatus::AtRisk, PositionStatus::Liquidating) => true,
            (PositionStatus::Liquidating, PositionStatus::Liquidated) => true,
            (PositionStatus::Liquidating, PositionStatus::Active) => true,
            (PositionStatus::Active, PositionStatus::Closed) => true,
            (PositionStatus::AtRisk, PositionStatus::Closed) => true,
            _ => false,
        }
    }

    /// A short lower-case label for operator-facing output.
    pub fn label(self) -> (r: &'static str)
        ensures
            self == PositionStatus::Active ==> r@ == "active"@,
            self == PositionStatus::AtRisk ==> r@ == "at_risk"@,
            self == PositionStatus::Liquidating ==> r@ == "liquidating"@,
            self == PositionStatus::Liquidated ==> r@ == "liquidated"@,
            self == PositionStatus::Closed ==> r@ == "closed"@,
    {
        match self {
            PositionStatus::Active => "active",
            PositionStatus::AtRisk => "at_risk",
            PositionStatus::Liquidating => "liquidating",
            PositionStatus::Liquidated => "liquidated",
            PositionStatus::Closed => "closed",
        }
    }
}

/// Configuration of the liquidation engine. Immutable for the engine's
/// lifetime; validated once at startup.
#[derive(Debug, Clone)]
pub struct LiquidationConfig {
    /// How often the scheduler ticks, in milliseconds.
    pub check_interval_ms: u64,
    /// Minimum time between liquidations of the same position, in seconds.
    pub liquidation_cooldown_secs: u64,
    /// Maximum number of positions in one dispatch batch.
    pub max_batch_size: usize,
    /// Maximum number of evaluations in flight at once.
    pub max_concurrent_liquidations: usize,
    /// Maximum number of submission attempts for one liquidation.
    pub max_retries: u8,
    /// Delay between submission attempts, in milliseconds.
    pub retry_delay_ms: u64,
    /// Whether a position may be reduced instead of closed.
    pub enable_partial_liquidations: bool,
    /// Share of the position liquidated in one attempt, in percent (1..=100).
    pub max_liquidation_percent: u8,
    /// Smallest position size that is evaluated, in micro-units.
    pub min_position_size: u64,
    /// Largest position size that is evaluated, in micro-units.
    pub max_position_size: u64,
    /// When set, no submission is made; under-collateralized positions are
    /// reported as skipped.
    pub dry_run: bool,
    /// Symbols to monitor; an empty list monitors every symbol.
    pub whitelisted_symbols: Vec<String>,
    /// Symbols never monitored.
    pub blacklisted_symbols: Vec<String>,
    /// Slippage tolerance handed to the submission layer, in basis points.
    pub max_slippage_bps: u16,
    /// Priority fee handed to the submission layer, in micro-lamports per
    /// compute unit.
    pub priority_fee_micro_lamports: u64,
    /// Maintenance margin ratio below which a position is liquidated, in
    /// parts per million.
    pub maintenance_margin_ppm: u64,
}

impl LiquidationConfig {
    /// Invariant of a usable configuration.
    pub open spec fn wf(&self) -> bool {
        &&& 1 <= self.max_liquidation_percent <= 100
        &&& self.max_concurrent_liquidations >= 1
        &&& self.max_batch_size >= 1
        &&& self.maintenance_margin_ppm <= RATIO_SCALE
    }

    /// Checks the configuration invariant, failing with a
    /// configuration-domain error exactly on the inputs that break it.
    /// Configuration errors are fatal at startup and never arise later.
    pub fn validate(&self) -> (r: Result<(), LiquidationError>)
        ensures
            r is Ok <==> self.wf(),
            r matches Err(e) ==> e is ConfigError,
    {
        if self.max_liquidation_percent < 1 || self.max_liquidation_percent > 100 {
            Err(LiquidationError::ConfigError(
                "max_liquidation_percent must lie in 1..=100".to_owned(),
            ))
        } else if self.max_concurrent_liquidations < 1 {
            Err(LiquidationError::ConfigError(
                "max_concurrent_liquidations must be at least 1".to_owned(),
            ))
        } else if self.max_batch_size < 1 {
            Err(LiquidationError::ConfigError("max_batch_size must be at least 1".to_owned()))
        } else if self.maintenance_margin_ppm > RATIO_SCALE {
            Err(LiquidationError::ConfigError(
                "maintenance_margin_ppm must not exceed one".to_owned(),
            ))
        } else {
            Ok(())
        }
    }
}

impl Default for LiquidationConfig {
    /// The stock configuration: tick every second, five-minute cooldown,
    /// batches of 100, ten concurrent evaluations, three attempts one second
    /// apart, partial liquidations of half the position, sizes between a
    /// thousandth of a unit and a thousand units, dry-run on, the two major
    /// pairs whitelisted, half a percent of slippage and a five percent
    /// maintenance margin.
    fn default() -> (r: Self)
        ensures
            r.wf(),
            r.check_interval_ms == 1000,
            r.liquidation_cooldown_secs == 300,
            r.max_batch_size == 100,
            r.max_concurrent_liquidations == 10,
            r.max_retries == 3,
            r.retry_delay_ms == 1000,
            r.enable_partial_liquidations,
            r.max_liquidation_percent == 50,
            r.min_position_size == 1000,
            r.max_position_size == 1_000_000_000,
            r.dry_run,
            r.whitelisted_symbols@.len() == 2,
            r.whitelisted_symbols@[0]@ == "BTC/USD"@,
            r.whitelisted_symbols@[1]@ == "ETH/USD"@,
            r.blacklisted_symbols@.len() == 0,
            r.max_slippage_bps == 50,
            r.priority_fee_micro_lamports == 1000,
            r.maintenance_margin_ppm == 50_000,
    {
        LiquidationConfig {
            check_interval_ms: 1000,
            liquidation_cooldown_secs: 300,
            max_batch_size: 100,
            max_concurrent_liquidations: 10,
            max_retries: 3,
            retry_delay_ms: 1000,
            enable_partial_liquidations: true,
            max_liquidation_percent: 50,
            min_position_size: 1000,
            max_position_size: 1_000_000_000,
            dry_run: true,
            whitelisted_symbols: vec!["BTC/USD".to_owned(), "ETH/USD".to_owned()],
            blacklisted_symbols: Vec::new(),
            max_slippage_bps: 50,
            priority_fee_micro_lamports: 1000,
            maintenance_margin_ppm: 50_000,
        }
    }
}

/// Why a position was not handed to the executor, or why the executor
/// finished without a submission.
#[derive(Debug, Clone, PartialEq, Eq)]
pub enum SkipReason {
    /// A successful liquidation lies within the cooldown window.
    CooldownActive,
    /// The position's symbol is not on the non-empty whitelist.
    SymbolNotWhitelisted,
    /// The position's symbol is on the blacklist.
    SymbolBlacklisted,
    /// The position is smaller than the configured minimum.
    BelowMinimumSize,
    /// The position is larger than the configured maximum.
    AboveMaximumSize,
    /// A liquidation attempt for this position is already in flight.
    AlreadyLiquidating,
    /// The position's status is terminal.
    PositionClosed,
    /// The price guard rejected the oracle observation.
    PriceRejected(LiquidationError),
    /// The position is not under-collateralized at the vetted price.
    NotLiquidatable,
    /// The engine runs in dry-run mode; no submission is made.
    DryRun,
}

/// Outcome of evaluating one position in one tick.
#[derive(Debug, Clone)]
pub enum LiquidationResult {
    /// The liquidation was submitted and confirmed.
    Success {
        /// Address of the liquidated position.
        position: u64,
        /// Liquidated amount, in micro-units of the base currency.
        amount: u64,
        /// Reference of the confirmed transaction.
        signature: String,
    },
    /// The liquidation failed after the configured number of attempts.
    Failure {
        /// Address of the position.
        position: u64,
        /// The terminal error.
        error: LiquidationError,
        /// Number of submission attempts made.
        attempts: u8,
    },
    /// The position was not liquidated this tick.
    Skipped {
        /// Address of the position.
        position: u64,
        /// Why it was skipped.
        reason: SkipReason,
    },
}

/// Snapshot of one position's state and derived risk figures, for the
/// observability surface.
#[derive(Debug, Clone)]
pub struct PositionUpdate {
    /// Address of the position.
    pub address: u64,
    /// Address of the owner.
    pub owner: u64,
    /// The trading pair.
    pub symbol: String,
    /// Current size, in micro-units of the base currency.
    pub size: u64,
    /// Entry price, in micro-units.
    pub entry_price: u64,
    /// Current margin, in micro-units of the quote currency.
    pub margin: u64,
    /// Whether the position is long.
    pub is_long: bool,
    /// Current monitoring status.
    pub status: PositionStatus,
    /// Current leverage, in parts per million.
    pub leverage_ppm: u128,
    /// The position's liquidation price, in micro-units.
    pub liquidation_price: u128,
    /// The mark price the figures were computed at, in micro-units.
    pub mark_price: u64,
    /// Unrealized profit or loss at the mark price, in micro-units.
    pub unrealized_pnl: i128,
    /// Margin ratio at the mark price, in parts per million.
    pub margin_ratio_ppm: i128,
    /// The position's maintenance margin requirement, in parts per million.
    pub maintenance_margin_ppm: u64,
    /// When the figures were computed, as a Unix timestamp.
    pub timestamp: i64,
}

/// Record of one completed liquidation, for the observability surface.
#[derive(Debug, Clone)]
pub struct LiquidationEvent {
    /// Address of the liquidated position.
    pub position: u64,
    /// Address of the liquidator.
    pub liquidator: u64,
    /// Liquidated amount, in micro-units of the base currency.
    pub amount: u64,
    /// Remaining size after the liquidation, in micro-units.
    pub remaining_size: u64,
    /// Remaining margin after the liquidation, in micro-units.
    pub remaining_margin: u64,
    /// The vetted price the liquidation was decided at, in micro-units.
    pub liquidation_price: u64,
    /// When the liquidation confirmed, as a Unix timestamp.
    pub timestamp: i64,
    /// Reference of the confirmed transaction.
    pub signature: String,
}

} // verus!
