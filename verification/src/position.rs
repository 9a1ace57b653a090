//! The position model: a pure value type and the risk arithmetic over it.
//!
//! All amounts are micro-units ([`AMOUNT_SCALE`] per whole unit) and all
//! ratios parts per million ([`RATIO_SCALE`]), so every quantity is an exact
//! integer and every contract an exact statement about integers.

use vstd::prelude::*;
use vstd::arithmetic::div_mod::{lemma_div_is_ordered, lemma_div_nonincreasing};
use crate::math::{lemma_div_ge_iff, lemma_div_lt_iff, lemma_div_of_negated};
use crate::types::{PositionStatus, PositionUpdate, AMOUNT_SCALE, MAX_AMOUNT, RATIO_SCALE};

verus! {

/// Floor of the maintenance margin, in parts per million (0.5%).
pub const BASE_MAINTENANCE_MARGIN_PPM: u64 = 5000;

/// Largest size-dependent addition to the maintenance margin, in parts per
/// million (0.1%).
pub const MAX_SIZE_IMPACT_PPM: u64 = 1000;

/// Size, in micro-units, at which the size-dependent addition reaches its
/// cap: one million whole units of the base currency.
pub const SIZE_IMPACT_REFERENCE: u64 = 1_000_000_000_000;

/// Largest notional value a well-formed position can reach, in
/// micro-quote-units: `MAX_AMOUNT * MAX_AMOUNT / AMOUNT_SCALE`.
pub const MAX_NOTIONAL: u128 = 1_000_000_000_000_000_000_000_000;

/// A leveraged trading position tracked by the engine.
///
/// The in-memory mirror of an on-ledger position: the registry holds the
/// authoritative copy and the ledger remains the durable source of truth.
#[derive(Debug)]
pub struct Position {
    /// Ledger account identifier of the position; unique per position.
    pub address: u64,
    /// Ledger account identifier of the owner.
    pub owner: u64,
    /// Trading pair, for example "BTC/USD".
    pub symbol: String,
    /// Position size in micro-units of the base currency; the direction is
    /// carried by `is_long`.
    pub size: u64,
    /// Entry price in micro-units of the quote currency per whole base unit.
    pub entry_price: u64,
    /// Collateral in micro-units of the quote currency.
    pub margin: u64,
    /// Whether the position profits from a rising price.
    pub is_long: bool,
    /// When the position was last liquidated, as a Unix timestamp.
    pub last_liquidated: Option<i64>,
}

impl Clone for Position {
    /// Clones every field unchanged.
    fn clone(&self) -> (r: Self)
        ensures
            r == *self,
    {
        Position {
            address: self.address,
            owner: self.owner,
            symbol: self.symbol.clone(),
            size: self.size,
            entry_price: self.entry_price,
            margin: self.margin,
            is_long: self.is_long,
            last_liquidated: self.last_liquidated,
        }
    }
}

impl Position {
    /// Sizes, prices and margins the engine accepts: bounded so that every
    /// product the risk arithmetic forms stays inside 128 bits.
    pub open spec fn wf(&self) -> bool {
        &&& self.size <= MAX_AMOUNT
        &&& self.entry_price <= MAX_AMOUNT
        &&& self.margin <= MAX_AMOUNT
    }

    /// A fresh position with no liquidation history.
    pub fn new(
        address: u64,
        owner: u64,
        symbol: &str,
        size: u64,
        entry_price: u64,
        margin: u64,
        is_long: bool,
    ) -> (r: Position)
        requires
            size <= MAX_AMOUNT,
            entry_price <= MAX_AMOUNT,
            margin <= MAX_AMOUNT,
        ensures
            r.wf(),
            r.address == address,
            r.owner == owner,
            r.symbol@ == symbol@,
            r.size == size,
            r.entry_price == entry_price,
            r.margin == margin,
            r.is_long == is_long,
            r.last_liquidated is None,
    {
        Position {
            address,
            owner,
            symbol: symbol.to_owned(),
            size,
            entry_price,
            margin,
            is_long,
            last_liquidated: None,
        }
    }

    /// Notional value of the position at `price`, in micro-quote-units:
    /// `size * price`, scaled back to micro-units.
    pub open spec fn spec_value(&self, price: u64) -> int {
        (self.size * price) / (AMOUNT_SCALE as int)
    }

    /// Notional value of the position at `current_price`.
    pub fn value(&self, current_price: u64) -> (r: u128)
        ensures
            r == self.spec_value(current_price),
            self.wf() && current_price <= MAX_AMOUNT ==> r <= MAX_NOTIONAL,
    {
        proof {
            assert((self.size as int) * (current_price as int) <= u64::MAX * u64::MAX)
                by (nonlinear_arith)
                requires
                    self.size <= u64::MAX,
                    current_price <= u64::MAX,
            ;
            if self.size <= MAX_AMOUNT && current_price <= MAX_AMOUNT {
                assert((self.size as int) * (current_price as int) <= (MAX_AMOUNT as int)
                    * (MAX_AMOUNT as int)) by (nonlinear_arith)
                    requires
                        self.size <= MAX_AMOUNT,
                        current_price <= MAX_AMOUNT,
                ;
                lemma_div_is_ordered(
                    (self.size as int) * (current_price as int),
                    (MAX_AMOUNT as int) * (MAX_AMOUNT as int),
                    AMOUNT_SCALE as int,
                );
            }
        }
        (self.size as u128) * (current_price as u128) / (AMOUNT_SCALE as u128)
    }

    /// Unrealized profit or loss at `price`, in micro-quote-units:
    /// `size * (price - entry_price)` for a long position and
    /// `size * (entry_price - price)` for a short one, scaled back to
    /// micro-units with the magnitude rounded toward zero.
    pub open spec fn spec_unrealized_pnl(&self, price: u64) -> int {
        let gross = if self.is_long {
            self.size * (price - self.entry_price)
        } else {
            self.size * (self.entry_price - price)
        };
        if gross >= 0 {
            gross / (AMOUNT_SCALE as int)
        } else {
            -((-gross) / (AMOUNT_SCALE as int))
        }
    }

    /// Unrealized profit or loss at `current_price`.
    pub fn unrealized_pnl(&self, current_price: u64) -> (r: i128)
        requires
            self.wf(),
            current_price <= MAX_AMOUNT,
        ensures
            r == self.spec_unrealized_pnl(current_price),
            -(MAX_NOTIONAL as i128) <= r <= MAX_NOTIONAL as i128,
    {
        let gaining: bool = if current_price >= self.entry_price {
            self.is_long
        } else {
            !self.is_long
        };
        let diff: u64 = if current_price >= self.entry_price {
            current_price - self.entry_price
        } else {
            self.entry_price - current_price
        };
        proof {
            assert((self.size as int) * (diff as int) <= (MAX_AMOUNT as int) * (MAX_AMOUNT as int))
                by (nonlinear_arith)
                requires
                    self.size <= MAX_AMOUNT,
                    diff <= MAX_AMOUNT,
            ;
            lemma_div_is_ordered(
                (self.size as int) * (diff as int),
                (MAX_AMOUNT as int) * (MAX_AMOUNT as int),
                AMOUNT_SCALE as int,
            );
            assert(self.size * ((self.entry_price - current_price) as int) == -(self.size * (
            (current_price - self.entry_price) as int))) by (nonlinear_arith);
        }
        let scaled: u128 = (self.size as u128) * (diff as u128) / (AMOUNT_SCALE as u128);
        if gaining {
            scaled as i128
        } else {
            -(scaled as i128)
        }
    }

    /// Collateral plus unrealized profit or loss at `price`.
    pub open spec fn spec_equity(&self, price: u64) -> int {
        self.margin + self.spec_unrealized_pnl(price)
    }

    /// Margin ratio at `price` in parts per million: equity divided by
    /// notional value, rounded down; zero for a position of zero value,
    /// which is never liquidatable.
    pub open spec fn spec_margin_ratio_ppm(&self, price: u64) -> int {
        if self.spec_value(price) == 0 {
            0
        } else {
            (self.spec_equity(price) * RATIO_SCALE) / self.spec_value(price)
        }
    }

    /// Margin ratio at `current_price`, in parts per million.
    pub fn margin_ratio(&self, current_price: u64) -> (r: i128)
        requires
            self.wf(),
            current_price <= MAX_AMOUNT,
        ensures
            r == self.spec_margin_ratio_ppm(current_price),
    {
        let v: u128 = self.value(current_price);
        if v == 0 {
            return 0;
        }
        let pnl: i128 = self.unrealized_pnl(current_price);
        let equity: i128 = self.margin as i128 + pnl;
        if equity >= 0 {
            let num: u128 = (equity as u128) * (RATIO_SCALE as u128);
            (num / v) as i128
        } else {
            let mag: u128 = ((-equity) as u128) * (RATIO_SCALE as u128);
            let q: u128 = (mag + v - 1) / v;
            proof {
                lemma_div_of_negated(mag as int, v as int);
                lemma_div_nonincreasing((mag + v - 1) as int, v as int);
            }
            -(q as i128)
        }
    }

    /// Maintenance margin requirement in parts per million: the fixed floor
    /// plus a size-dependent addition that grows linearly up to its cap,
    /// reflecting the market impact of closing a larger position.
    pub open spec fn spec_maintenance_margin_ppm(&self) -> int {
        let capped = if self.size > SIZE_IMPACT_REFERENCE {
            SIZE_IMPACT_REFERENCE as int
        } else {
            self.size as int
        };
        BASE_MAINTENANCE_MARGIN_PPM + capped * MAX_SIZE_IMPACT_PPM / (SIZE_IMPACT_REFERENCE as int)
    }

    /// Maintenance margin requirement of this position.
    pub fn maintenance_margin_ppm(&self) -> (r: u64)
        ensures
            r == self.spec_maintenance_margin_ppm(),
            BASE_MAINTENANCE_MARGIN_PPM <= r <= BASE_MAINTENANCE_MARGIN_PPM
                + MAX_SIZE_IMPACT_PPM,
    {
        let capped: u64 = if self.size > SIZE_IMPACT_REFERENCE {
            SIZE_IMPACT_REFERENCE
        } else {
            self.size
        };
        proof {
            lemma_div_lt_iff(
                (capped as int) * (MAX_SIZE_IMPACT_PPM as int),
                SIZE_IMPACT_REFERENCE as int,
                MAX_SIZE_IMPACT_PPM as int + 1,
            );
        }
        let bonus: u64 = ((capped as u128) * (MAX_SIZE_IMPACT_PPM as u128) / (
        SIZE_IMPACT_REFERENCE as u128)) as u64;
        BASE_MAINTENANCE_MARGIN_PPM + bonus
    }

    /// Whether the position must be liquidated at `price` under the given
    /// maintenance margin: its value is positive and its equity falls short
    /// of the maintenance share of that value. For positions of positive
    /// value this is exactly `spec_margin_ratio_ppm(price) < mm_ppm`; a
    /// position of zero value is never liquidatable.
    pub open spec fn spec_is_undercollateralized(&self, price: u64, mm_ppm: u64) -> bool {
        let v = self.spec_value(price);
        v > 0 && self.spec_equity(price) * RATIO_SCALE < mm_ppm * v
    }

    /// Whether the position is under-collateralized at `current_price`
    /// under the maintenance margin `maintenance_margin_ppm`.
    pub fn is_undercollateralized(&self, current_price: u64, maintenance_margin_ppm: u64) -> (r:
        bool)
        requires
            self.wf(),
            current_price <= MAX_AMOUNT,
            maintenance_margin_ppm <= RATIO_SCALE,
        ensures
            r == self.spec_is_undercollateralized(current_price, maintenance_margin_ppm),
            r == (self.spec_value(current_price) != 0 && self.spec_margin_ratio_ppm(current_price)
                < maintenance_margin_ppm),
    {
        let v: u128 = self.value(current_price);
        if v == 0 {
            return false;
        }
        let pnl: i128 = self.unrealized_pnl(current_price);
        let equity: i128 = self.margin as i128 + pnl;
        proof {
            lemma_div_lt_iff(
                self.spec_equity(current_price) * RATIO_SCALE,
                v as int,
                maintenance_margin_ppm as int,
            );
            assert((v as int) * (maintenance_margin_ppm as int) == (maintenance_margin_ppm as int)
                * (v as int)) by (nonlinear_arith);
            assert((v as int) * (maintenance_margin_ppm as int) >= 0) by (nonlinear_arith)
                requires
                    v >= 0,
                    maintenance_margin_ppm >= 0,
            ;
            assert((maintenance_margin_ppm as int) * (v as int) <= (RATIO_SCALE as int) * (
            MAX_NOTIONAL as int)) by (nonlinear_arith)
                requires
                    0 <= maintenance_margin_ppm <= RATIO_SCALE,
                    0 <= v <= MAX_NOTIONAL,
            ;
        }
        if equity < 0 {
            return true;
        }
        let lhs: u128 = (equity as u128) * (RATIO_SCALE as u128);
        let rhs: u128 = (maintenance_margin_ppm as u128) * v;
        lhs < rhs
    }

    /// Whether the position must be liquidated at `current_price` under its
    /// own maintenance margin requirement.
    pub fn is_liquidatable(&self, current_price: u64) -> (r: bool)
        requires
            self.wf(),
            current_price <= MAX_AMOUNT,
        ensures
            r == self.spec_is_undercollateralized(
                current_price,
                self.spec_maintenance_margin_ppm() as u64,
            ),
    {
        let mm: u64 = self.maintenance_margin_ppm();
        self.is_undercollateralized(current_price, mm)
    }

    /// Leverage at `price` in parts per million: notional value divided by
    /// equity, rounded down. Zero for a position of zero value and for a
    /// position without positive equity, whose leverage is unbounded.
    pub open spec fn spec_leverage_ppm(&self, price: u64) -> int {
        let v = self.spec_value(price);
        let equity = self.spec_equity(price);
        if v == 0 || equity <= 0 {
            0
        } else {
            (v * RATIO_SCALE) / equity
        }
    }

    /// Leverage of the position at `current_price`, in parts per million.
    pub fn leverage(&self, current_price: u64) -> (r: u128)
        requires
            self.wf(),
            current_price <= MAX_AMOUNT,
        ensures
            r == self.spec_leverage_ppm(current_price),
    {
        let v: u128 = self.value(current_price);
        let pnl: i128 = self.unrealized_pnl(current_price);
        let equity: i128 = self.margin as i128 + pnl;
        if v == 0 || equity <= 0 {
            0
        } else {
            proof {
                assert((v as int) * (RATIO_SCALE as int) <= (MAX_NOTIONAL as int) * (
                RATIO_SCALE as int) <= u128::MAX) by (nonlinear_arith)
                    requires
                        0 <= v <= MAX_NOTIONAL,
                ;
            }
            v * (RATIO_SCALE as u128) / (equity as u128)
        }
    }

    /// The price at which the margin ratio crosses this position's own
    /// maintenance margin, solved from the margin-ratio formula. For a long
    /// position the ratio falls with the price and the crossing is rounded
    /// down; for a short position it falls as the price rises and the
    /// result is the smallest price beyond the crossing. Zero for a
    /// position of zero size, and for a long position whose collateral
    /// covers its whole notional value, which no falling price liquidates.
    pub open spec fn spec_liquidation_price(&self) -> int {
        let mm = self.spec_maintenance_margin_ppm();
        if self.size == 0 {
            0
        } else if self.is_long {
            let num = RATIO_SCALE * (self.size * self.entry_price - self.margin * AMOUNT_SCALE);
            let den = self.size * (RATIO_SCALE - mm);
            if num <= 0 {
                0
            } else {
                num / den
            }
        } else {
            let num = RATIO_SCALE * (self.size * self.entry_price + self.margin * AMOUNT_SCALE);
            let den = self.size * (RATIO_SCALE + mm);
            num / den + 1
        }
    }

    /// The liquidation price of this position, in micro-quote-units.
    pub fn liquidation_price(&self) -> (r: u128)
        requires
            self.wf(),
        ensures
            r == self.spec_liquidation_price(),
    {
        let mm: u64 = self.maintenance_margin_ppm();
        if self.size == 0 {
            return 0;
        }
        proof {
            assert((self.size as int) * (self.entry_price as int) <= (MAX_AMOUNT as int) * (
            MAX_AMOUNT as int) < u128::MAX) by (nonlinear_arith)
                requires
                    self.size <= MAX_AMOUNT,
                    self.entry_price <= MAX_AMOUNT,
            ;
            assert((self.margin as int) * (AMOUNT_SCALE as int) <= (MAX_AMOUNT as int) * (
            AMOUNT_SCALE as int) < u128::MAX) by (nonlinear_arith)
                requires
                    self.margin <= MAX_AMOUNT,
            ;
            assert(0 < (self.size as int) * ((RATIO_SCALE - mm) as int) <= (MAX_AMOUNT as int) * (
            RATIO_SCALE as int) < u128::MAX) by (nonlinear_arith)
                requires
                    0 < self.size <= MAX_AMOUNT,
                    0 < RATIO_SCALE - mm <= RATIO_SCALE,
            ;
            assert(0 < (self.size as int) * ((RATIO_SCALE + mm) as int) <= (MAX_AMOUNT as int) * (2
                * RATIO_SCALE as int) < u128::MAX) by (nonlinear_arith)
                requires
                    0 < self.size <= MAX_AMOUNT,
                    0 < RATIO_SCALE + mm <= 2 * RATIO_SCALE,
            ;
        }
        let notional: u128 = (self.size as u128) * (self.entry_price as u128);
        let collateral: u128 = (self.margin as u128) * (AMOUNT_SCALE as u128);
        if self.is_long {
            if notional <= collateral {
                return 0;
            }
            proof {
                assert((RATIO_SCALE as int) * ((notional - collateral) as int) <= (
                RATIO_SCALE as int) * ((MAX_AMOUNT as int) * (MAX_AMOUNT as int)) < u128::MAX)
                    by (nonlinear_arith)
                    requires
                        0 <= notional - collateral <= (MAX_AMOUNT as int) * (MAX_AMOUNT as int),
                ;
            }
            let num: u128 = (RATIO_SCALE as u128) * (notional - collateral);
            let den: u128 = (self.size as u128) * ((RATIO_SCALE - mm) as u128);
            num / den
        } else {
            proof {
                assert((RATIO_SCALE as int) * ((notional + collateral) as int) <= (
                RATIO_SCALE as int) * (2 * (MAX_AMOUNT as int) * (MAX_AMOUNT as int)) < u128::MAX)
                    by (nonlinear_arith)
                    requires
                        0 <= notional + collateral <= 2 * (MAX_AMOUNT as int) * (MAX_AMOUNT as int),
                ;
            }
            let num: u128 = (RATIO_SCALE as u128) * (notional + collateral);
            let den: u128 = (self.size as u128) * ((RATIO_SCALE + mm) as u128);
            proof {
                lemma_div_nonincreasing(
                    (RATIO_SCALE as int) * ((notional + collateral) as int),
                    (self.size as int) * ((RATIO_SCALE + mm) as int),
                );
            }
            num / den + 1
        }
    }

    /// A full snapshot of the position's state and derived risk figures at
    /// the given mark price and time, for operators to consume.
    pub fn update_record(&self, status: PositionStatus, mark_price: u64, now: i64) -> (r:
        PositionUpdate)
        requires
            self.wf(),
            mark_price <= MAX_AMOUNT,
        ensures
            r.address == self.address,
            r.owner == self.owner,
            r.symbol@ == self.symbol@,
            r.size == self.size,
            r.entry_price == self.entry_price,
            r.margin == self.margin,
            r.is_long == self.is_long,
            r.status == status,
            r.leverage_ppm == self.spec_leverage_ppm(mark_price),
            r.liquidation_price == self.spec_liquidation_price(),
            r.mark_price == mark_price,
            r.unrealized_pnl == self.spec_unrealized_pnl(mark_price),
            r.margin_ratio_ppm == self.spec_margin_ratio_ppm(mark_price),
            r.maintenance_margin_ppm == self.spec_maintenance_margin_ppm(),
            r.timestamp == now,
    {
        PositionUpdate {
            address: self.address,
            owner: self.owner,
            symbol: self.symbol.clone(),
            size: self.size,
            entry_price: self.entry_price,
            margin: self.margin,
            is_long: self.is_long,
            status,
            leverage_ppm: self.leverage(mark_price),
            liquidation_price: self.liquidation_price(),
            mark_price,
            unrealized_pnl: self.unrealized_pnl(mark_price),
            margin_ratio_ppm: self.margin_ratio(mark_price),
            maintenance_margin_ppm: self.maintenance_margin_ppm(),
            timestamp: now,
        }
    }
}

/// For every well-formed position and every price at which the margin ratio
/// is at least the maintenance margin, the position is not
/// under-collateralized, so no liquidation is attempted.
pub proof fn lemma_healthy_position_not_undercollateralized(
    p: Position,
    price: u64,
    mm_ppm: u64,
)
    requires
        p.wf(),
        price <= MAX_AMOUNT,
        p.spec_margin_ratio_ppm(price) >= mm_ppm,
    ensures
        !p.spec_is_undercollateralized(price, mm_ppm),
{
    let v = p.spec_value(price);
    if v > 0 {
        lemma_div_ge_iff(p.spec_equity(price) * RATIO_SCALE, v, mm_ppm as int);
        assert(v * (mm_ppm as int) == (mm_ppm as int) * v) by (nonlinear_arith);
    }
}

/// For every well-formed position of positive size and positive entry price
/// whose margin ratio at entry lies strictly above its maintenance margin
/// (written cross-multiplied, over the unscaled notional value
/// `size * entry_price`), the liquidation price of a long position lies
/// strictly below the entry price, and the liquidation price of a short
/// position strictly above it.
pub proof fn lemma_liquidation_price_brackets_entry(p: Position)
    requires
        p.wf(),
        p.size > 0,
        p.entry_price > 0,
        p.spec_maintenance_margin_ppm() * (p.size * p.entry_price) < p.margin * AMOUNT_SCALE
            * RATIO_SCALE,
    ensures
        p.is_long ==> p.spec_liquidation_price() < p.entry_price,
        !p.is_long ==> p.spec_liquidation_price() > p.entry_price,
{
    let mm = p.spec_maintenance_margin_ppm();
    let notional = p.size * p.entry_price;
    let collateral = p.margin * AMOUNT_SCALE;
    let capped = if p.size > SIZE_IMPACT_REFERENCE {
        SIZE_IMPACT_REFERENCE as int
    } else {
        p.size as int
    };
    assert(0 <= capped * (MAX_SIZE_IMPACT_PPM as int) < (SIZE_IMPACT_REFERENCE as int) * (
    MAX_SIZE_IMPACT_PPM as int + 1)) by (nonlinear_arith)
        requires
            0 <= capped <= SIZE_IMPACT_REFERENCE as int,
    ;
    lemma_div_ge_iff(capped * (MAX_SIZE_IMPACT_PPM as int), SIZE_IMPACT_REFERENCE as int, 0);
    lemma_div_lt_iff(
        capped * (MAX_SIZE_IMPACT_PPM as int),
        SIZE_IMPACT_REFERENCE as int,
        MAX_SIZE_IMPACT_PPM as int + 1,
    );
    assert(0 <= mm <= BASE_MAINTENANCE_MARGIN_PPM + MAX_SIZE_IMPACT_PPM);
    if p.is_long {
        let num = RATIO_SCALE * (notional - collateral);
        let den = p.size * (RATIO_SCALE - mm);
        assert(den > 0) by (nonlinear_arith)
            requires
                den == p.size * (RATIO_SCALE - mm),
                p.size > 0,
                0 <= mm < RATIO_SCALE,
        ;
        if num <= 0 {
            assert(p.spec_liquidation_price() == 0);
        } else {
            lemma_div_lt_iff(num, den, p.entry_price as int);
            assert(num < den * p.entry_price) by (nonlinear_arith)
                requires
                    mm * notional < collateral * (RATIO_SCALE as int),
                    num == RATIO_SCALE * (notional - collateral),
                    den == p.size * (RATIO_SCALE - mm),
                    notional == p.size * p.entry_price,
            ;
        }
    } else {
        let num = RATIO_SCALE * (notional + collateral);
        let den = p.size * (RATIO_SCALE + mm);
        assert(den > 0) by (nonlinear_arith)
            requires
                den == p.size * (RATIO_SCALE + mm),
                p.size > 0,
                0 <= mm,
                RATIO_SCALE > 0,
        ;
        lemma_div_ge_iff(num, den, p.entry_price as int);
        assert(num >= den * p.entry_price) by (nonlinear_arith)
            requires
                mm * notional < collateral * (RATIO_SCALE as int),
                num == RATIO_SCALE * (notional + collateral),
                den == p.size * (RATIO_SCALE + mm),
                notional == p.size * p.entry_price,
        ;
    }
}

} // verus!
