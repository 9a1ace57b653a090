//! The price guard: turns a raw oracle observation into a vetted price or a
//! typed rejection.
//!
//! A raw observation carries a price and a confidence interval as a mantissa
//! with a decimal exponent, plus its publication time. The guard rejects
//! observations that are stale or whose confidence interval is suspiciously
//! narrow or too wide — a frozen feed is as dangerous as an illiquid one —
//! and scales the accepted price to micro-units. The guard is consulted on
//! every per-position evaluation and is never bypassed, dry-run included.

use vstd::prelude::*;
use vstd::arithmetic::div_mod::lemma_basic_div;
use crate::error::LiquidationError;
use crate::types::{MAX_AMOUNT, RATIO_SCALE};

verus! {

/// Policy of the price guard. Immutable after construction.
#[derive(Debug, Clone)]
pub struct OracleConfig {
    /// Oldest observation the guard accepts, in seconds.
    pub max_price_age_secs: u64,
    /// Smallest accepted ratio of confidence interval to price, in parts
    /// per million.
    pub min_confidence_ppm: u64,
    /// Largest accepted ratio of confidence interval to price, in parts per
    /// million.
    pub max_confidence_ppm: u64,
    /// Whether the main network's oracle accounts are read.
    pub use_mainnet: bool,
}

impl Default for OracleConfig {
    /// The stock guard policy: thirty seconds of allowed age and a
    /// confidence band between 0.1% and 1% of the price.
    fn default() -> (r: Self)
        ensures
            r.max_price_age_secs == 30,
            r.min_confidence_ppm == 1000,
            r.max_confidence_ppm == 10_000,
            !r.use_mainnet,
    {
        OracleConfig {
            max_price_age_secs: 30,
            min_confidence_ppm: 1000,
            max_confidence_ppm: 10_000,
            use_mainnet: false,
        }
    }
}

/// One raw observation from the oracle network, before vetting: price and
/// confidence share the decimal exponent `expo`.
#[derive(Debug, Clone, Copy)]
pub struct RawObservation {
    /// Price mantissa; the price is `price * 10^expo` quote units.
    pub price: i64,
    /// Confidence interval mantissa, on the same exponent.
    pub confidence: u64,
    /// Decimal exponent shared by `price` and `confidence`.
    pub expo: i32,
    /// When the observation was published, as a Unix timestamp.
    pub publish_time: i64,
}

/// Ten to the `e`-th power.
pub open spec fn pow10(e: nat) -> nat
    decreases e,
{
    if e == 0 {
        1
    } else {
        10 * pow10((e - 1) as nat)
    }
}

/// Ten to any power is positive.
pub proof fn lemma_pow10_positive(e: nat)
    ensures
        pow10(e) >= 1,
    decreases e,
{
    if e > 0 {
        lemma_pow10_positive((e - 1) as nat);
    }
}

/// Powers of ten grow with the exponent.
pub proof fn lemma_pow10_monotone(a: nat, b: nat)
    requires
        a <= b,
    ensures
        pow10(a) <= pow10(b),
    decreases b,
{
    lemma_pow10_positive(a);
    if a < b {
        lemma_pow10_monotone(a, (b - 1) as nat);
    }
}

/// The value of a positive mantissa under exponent `expo`, brought to
/// micro-units: multiplied by ten to the `expo + 6` when that shift is
/// non-negative, divided by the matching power of ten otherwise, rounding
/// down.
pub open spec fn spec_scaled_to_micro(mantissa: i64, expo: i32) -> int {
    let shift = expo + 6;
    if shift >= 0 {
        mantissa * pow10(shift as nat)
    } else {
        (mantissa as int) / (pow10((-shift) as nat) as int)
    }
}

/// Ten to the `e`-th power, for exponents whose power fits comfortably in a
/// scaling computation.
fn pow10_exec(e: u64) -> (r: u128)
    requires
        e <= 18,
    ensures
        r == pow10(e as nat),
        1 <= r <= 1_000_000_000_000_000_000,
{
    proof {
        assert(pow10(18) == 1_000_000_000_000_000_000) by {
            reveal_with_fuel(pow10, 19);
        }
    }
    let mut r: u128 = 1;
    let mut i: u64 = 0;
    while i < e
        invariant
            i <= e <= 18,
            r == pow10(i as nat),
        decreases e - i,
    {
        proof {
            assert(pow10(18) == 1_000_000_000_000_000_000) by {
                reveal_with_fuel(pow10, 19);
            }
            lemma_pow10_monotone((i + 1) as nat, 18);
        }
        r = r * 10;
        i = i + 1;
    }
    proof {
        lemma_pow10_positive(e as nat);
        lemma_pow10_monotone(e as nat, 18);
    }
    r
}

/// Brings a positive price or confidence mantissa with its decimal exponent
/// to micro-units. `None` for a mantissa that is not positive and for a
/// value above [`MAX_AMOUNT`]; a tiny value may round down to zero.
pub fn scale_to_micro(mantissa: i64, expo: i32) -> (r: Option<u64>)
    ensures
        r matches Some(v) ==> mantissa >= 1 && v == spec_scaled_to_micro(mantissa, expo) && v
            <= MAX_AMOUNT,
        r is None <==> mantissa < 1 || spec_scaled_to_micro(mantissa, expo) > MAX_AMOUNT,
{
    if mantissa < 1 {
        return None;
    }
    let m: u128 = mantissa as u128;
    let shift: i64 = (expo as i64) + 6;
    if shift >= 0 {
        if shift > 15 {
            proof {
                lemma_pow10_monotone(16, (shift as nat));
                assert(pow10(16) == 10_000_000_000_000_000) by {
                    reveal_with_fuel(pow10, 17);
                }
                assert(mantissa * pow10(shift as nat) >= pow10(shift as nat)) by (nonlinear_arith)
                    requires
                        mantissa >= 1,
                        pow10(shift as nat) >= 0,
                ;
            }
            return None;
        }
        let factor: u128 = pow10_exec(shift as u64);
        proof {
            lemma_pow10_monotone(shift as nat, 15);
            assert(pow10(15) == 1_000_000_000_000_000) by {
                reveal_with_fuel(pow10, 16);
            }
            assert((m as int) * (factor as int) <= (i64::MAX as int) * (
            1_000_000_000_000_000 as int) < u128::MAX) by (nonlinear_arith)
                requires
                    0 <= m <= i64::MAX,
                    0 <= factor <= 1_000_000_000_000_000,
            ;
        }
        let v: u128 = m * factor;
        if v > MAX_AMOUNT as u128 {
            None
        } else {
            Some(v as u64)
        }
    } else {
        let depth: i64 = -shift;
        if depth > 18 {
            proof {
                lemma_pow10_monotone(19, depth as nat);
                assert(pow10(19) == 10_000_000_000_000_000_000) by {
                    reveal_with_fuel(pow10, 20);
                }
                lemma_basic_div(mantissa as int, pow10(depth as nat) as int);
            }
            return Some(0);
        }
        let factor: u128 = pow10_exec(depth as u64);
        let q: u128 = m / factor;
        if q > MAX_AMOUNT as u128 {
            None
        } else {
            Some(q as u64)
        }
    }
}

impl RawObservation {
    /// Whether the observation is older than the configured bound at `now`.
    pub open spec fn spec_is_stale(&self, now: i64, config: OracleConfig) -> bool {
        now - self.publish_time > config.max_price_age_secs
    }

    /// Whether the confidence interval is suspiciously narrow: its ratio to
    /// the price falls below the configured minimum. Stated exactly over
    /// the shared mantissas, where the exponent cancels.
    pub open spec fn spec_confidence_too_low(&self, config: OracleConfig) -> bool {
        self.confidence * RATIO_SCALE < config.min_confidence_ppm * self.price
    }

    /// Whether the confidence interval is too wide: its ratio to the price
    /// exceeds the configured maximum.
    pub open spec fn spec_confidence_too_high(&self, config: OracleConfig) -> bool {
        self.confidence * RATIO_SCALE > config.max_confidence_ppm * self.price
    }
}

/// What the price guard promises of its outcome `r` for the observation
/// `obs` vetted at time `now`: the checks run in this order, each rejection
/// carries the symbol it concerns, and a vetted price is the observation's
/// price in micro-units, positive and within range.
pub open spec fn vet_outcome_matches(
    symbol: Seq<char>,
    obs: RawObservation,
    now: i64,
    config: OracleConfig,
    r: Result<u64, LiquidationError>,
) -> bool {
    let scaled = spec_scaled_to_micro(obs.price, obs.expo);
    &&& obs.spec_is_stale(now, config) ==> (r matches Err(e) && e matches
        LiquidationError::StalePrice(s) && s@ == symbol)
    &&& !obs.spec_is_stale(now, config) && obs.price < 1 ==> (r matches Err(e) && e matches
        LiquidationError::OracleError(s) && s@ == symbol)
    &&& !obs.spec_is_stale(now, config) && obs.price >= 1 && obs.spec_confidence_too_low(config)
        ==> (r matches Err(e) && e matches LiquidationError::LowConfidencePrice(s) && s@ == symbol)
    &&& !obs.spec_is_stale(now, config) && obs.price >= 1 && !obs.spec_confidence_too_low(config)
        && obs.spec_confidence_too_high(config) ==> (r matches Err(e) && e matches
        LiquidationError::HighConfidenceInterval(s) && s@ == symbol)
    &&& !obs.spec_is_stale(now, config) && obs.price >= 1 && !obs.spec_confidence_too_low(config)
        && !obs.spec_confidence_too_high(config) && !(1 <= scaled <= MAX_AMOUNT) ==> (r matches
        Err(e) && e matches LiquidationError::OracleError(s) && s@ == symbol)
    &&& r is Ok <==> (!obs.spec_is_stale(now, config) && obs.price >= 1
        && !obs.spec_confidence_too_low(config) && !obs.spec_confidence_too_high(config) && 1
        <= scaled <= MAX_AMOUNT)
    &&& r matches Ok(p) ==> p == scaled
}

/// Vets one raw observation at time `now`: rejects it as stale when older
/// than `max_price_age_secs`, as unusable when its price is not positive or
/// does not scale into range, and as out of the confidence band when the
/// ratio of confidence to price leaves
/// `[min_confidence_ppm, max_confidence_ppm]`; otherwise returns the price
/// in micro-units.
pub fn vet_price(symbol: &str, observation: &RawObservation, now: i64, config: &OracleConfig) -> (
    r: Result<u64, LiquidationError>)
    ensures
        vet_outcome_matches(symbol@, *observation, now, *config, r),
{
    let age_exceeded: bool = if now >= observation.publish_time {
        let age: i128 = (now as i128) - (observation.publish_time as i128);
        age > config.max_price_age_secs as i128
    } else {
        false
    };
    if age_exceeded {
        return Err(LiquidationError::StalePrice(symbol.to_owned()));
    }
    if observation.price < 1 {
        return Err(LiquidationError::OracleError(symbol.to_owned()));
    }
    proof {
        assert((observation.confidence as int) * (RATIO_SCALE as int) < u128::MAX)
            by (nonlinear_arith)
            requires
                0 <= observation.confidence <= u64::MAX,
        ;
        assert((config.min_confidence_ppm as int) * (observation.price as int) < u128::MAX)
            by (nonlinear_arith)
            requires
                0 <= config.min_confidence_ppm <= u64::MAX,
                0 <= observation.price <= i64::MAX,
        ;
        assert((config.max_confidence_ppm as int) * (observation.price as int) < u128::MAX)
            by (nonlinear_arith)
            requires
                0 <= config.max_confidence_ppm <= u64::MAX,
                0 <= observation.price <= i64::MAX,
        ;
    }
    let spread: u128 = (observation.confidence as u128) * (RATIO_SCALE as u128);
    if spread < (config.min_confidence_ppm as u128) * (observation.price as u128) {
        return Err(LiquidationError::LowConfidencePrice(symbol.to_owned()));
    }
    if spread > (config.max_confidence_ppm as u128) * (observation.price as u128) {
        return Err(LiquidationError::HighConfidenceInterval(symbol.to_owned()));
    }
    match scale_to_micro(observation.price, observation.expo) {
        Some(price_micro) => {
            if price_micro == 0 {
                Err(LiquidationError::OracleError(symbol.to_owned()))
            } else {
                Ok(price_micro)
            }
        },
        None => Err(LiquidationError::OracleError(symbol.to_owned())),
    }
}

/// Relies on chrono::Utc::now: the current time as non-leap seconds since
/// the Unix epoch. Nothing is assumed of the value; every caller states
/// what holds whatever time comes back.
#[verifier::external_body]
pub(crate) fn current_unix_time() -> i64 {
    chrono::Utc::now().timestamp()
}

/// Vets one raw observation at the current wall-clock time, which is
/// returned beside the outcome.
pub fn vet_price_now(symbol: &str, observation: &RawObservation, config: &OracleConfig) -> (r: (
    Result<u64, LiquidationError>,
    i64,
))
    ensures
        vet_outcome_matches(symbol@, *observation, r.1, *config, r.0),
{
    let now: i64 = current_unix_time();
    (vet_price(symbol, observation, now, config), now)
}

/// The guard rejects a stale observation whatever its other fields hold: at
/// any time `now` at which the observation's age exceeds the allowed bound,
/// the outcome is a `StalePrice` rejection carrying the symbol.
pub proof fn lemma_vet_rejects_stale(
    symbol: Seq<char>,
    obs: RawObservation,
    now: i64,
    config: OracleConfig,
    r: Result<u64, LiquidationError>,
)
    requires
        vet_outcome_matches(symbol, obs, now, config, r),
        now - obs.publish_time > config.max_price_age_secs,
    ensures
        r matches Err(e) && e matches LiquidationError::StalePrice(s) && s@ == symbol,
{
}

/// The guard rejects any observation whose confidence ratio leaves the
/// configured band, in either direction; in particular no such observation
/// yields a vetted price.
pub proof fn lemma_vet_rejects_confidence_outside_band(
    symbol: Seq<char>,
    obs: RawObservation,
    now: i64,
    config: OracleConfig,
    r: Result<u64, LiquidationError>,
)
    requires
        vet_outcome_matches(symbol, obs, now, config, r),
        obs.spec_confidence_too_low(config) || obs.spec_confidence_too_high(config),
    ensures
        r is Err,
{
}

} // verus!
