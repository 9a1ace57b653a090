//! Per-tick scheduling decisions: which tracked positions are evaluated
//! this tick, and how the chosen ones are cut into dispatch batches.
//!
//! The driver snapshots the registry, filters the snapshot here, and
//! dispatches each batch with a bounded number of evaluations in flight.
//! One position's cooldown never blocks another, and a tick never overlaps
//! the previous one — both are decisions of the surrounding driver; what is
//! decided here is, for each position alone, whether it may be evaluated.

use vstd::prelude::*;
use crate::position::Position;
use crate::registry::{spec_contains_address, spec_entry_for, spec_index_of, addresses_unique,
    MonitoredPosition};
use crate::registry;
use crate::types::{LiquidationConfig, PositionStatus, SkipReason};

verus! {

/// Whether a successful liquidation at the recorded time still cools the
/// position down at `now`.
pub open spec fn spec_in_cooldown(p: Position, now: i64, cooldown_secs: u64) -> bool {
    match p.last_liquidated {
        Some(t) => now - t < cooldown_secs,
        None => false,
    }
}

/// Whether some string of the list reads the same as `symbol`.
pub open spec fn spec_symbol_listed(list: Seq<String>, symbol: Seq<char>) -> bool {
    exists|i: int| 0 <= i < list.len() && #[trigger] list[i]@ == symbol
}

/// Why the entry is left out of this tick's evaluation, if it is: an
/// in-flight or settled attempt, the cooldown window, the symbol lists,
/// then the size bounds, in that order; `None` means it is evaluated.
pub open spec fn spec_eligibility(
    entry: MonitoredPosition,
    now: i64,
    config: LiquidationConfig,
) -> Option<SkipReason> {
    if entry.status == PositionStatus::Liquidating {
        Some(SkipReason::AlreadyLiquidating)
    } else if entry.status == PositionStatus::Liquidated || entry.status == PositionStatus::Closed {
        Some(SkipReason::PositionClosed)
    } else if spec_in_cooldown(entry.position, now, config.liquidation_cooldown_secs) {
        Some(SkipReason::CooldownActive)
    } else if config.whitelisted_symbols.len() > 0 && !spec_symbol_listed(
        config.whitelisted_symbols@,
        entry.position.symbol@,
    ) {
        Some(SkipReason::SymbolNotWhitelisted)
    } else if spec_symbol_listed(config.blacklisted_symbols@, entry.position.symbol@) {
        Some(SkipReason::SymbolBlacklisted)
    } else if entry.position.size < config.min_position_size {
        Some(SkipReason::BelowMinimumSize)
    } else if entry.position.size > config.max_position_size {
        Some(SkipReason::AboveMaximumSize)
    } else {
        None
    }
}

/// Whether some string of `list` reads the same as `symbol`.
fn symbol_listed(list: &Vec<String>, symbol: &String) -> (r: bool)
    ensures
        r == spec_symbol_listed(list@, symbol@),
{
    let n: usize = list.len();
    let mut i: usize = 0;
    while i < n
        invariant
            i <= n == list@.len(),
            forall|j: int| 0 <= j < i ==> #[trigger] list@[j]@ != symbol@,
        decreases n - i,
    {
        if list[i] == *symbol {
            proof {
                assert(spec_symbol_listed(list@, symbol@)) by {
                    assert(list@[i as int]@ == symbol@);
                }
            }
            return true;
        }
        i = i + 1;
    }
    false
}

/// Decides whether the entry is evaluated this tick, and if not, why not.
pub fn evaluation_eligibility(
    entry: &MonitoredPosition,
    now: i64,
    config: &LiquidationConfig,
) -> (r: Option<SkipReason>)
    ensures
        r == spec_eligibility(*entry, now, *config),
{
    if entry.status == PositionStatus::Liquidating {
        return Some(SkipReason::AlreadyLiquidating);
    }
    if entry.status == PositionStatus::Liquidated || entry.status == PositionStatus::Closed {
        return Some(SkipReason::PositionClosed);
    }
    let cooling: bool = match entry.position.last_liquidated {
        Some(t) => (now as i128) - (t as i128) < config.liquidation_cooldown_secs as i128,
        None => false,
    };
    if cooling {
        return Some(SkipReason::CooldownActive);
    }
    if config.whitelisted_symbols.len() > 0 && !symbol_listed(
        &config.whitelisted_symbols,
        &entry.position.symbol,
    ) {
        return Some(SkipReason::SymbolNotWhitelisted);
    }
    if symbol_listed(&config.blacklisted_symbols, &entry.position.symbol) {
        return Some(SkipReason::SymbolBlacklisted);
    }
    if entry.position.size < config.min_position_size {
        return Some(SkipReason::BelowMinimumSize);
    }
    if entry.position.size > config.max_position_size {
        return Some(SkipReason::AboveMaximumSize);
    }
    None
}

/// The positions of the snapshot that this tick evaluates, in order.
pub open spec fn spec_selected(
    s: Seq<MonitoredPosition>,
    now: i64,
    config: LiquidationConfig,
) -> Seq<Position>
    decreases s.len(),
{
    if s.len() == 0 {
        Seq::empty()
    } else {
        let rest = spec_selected(s.drop_last(), now, config);
        if spec_eligibility(s.last(), now, config) is None {
            rest.push(s.last().position)
        } else {
            rest
        }
    }
}

/// Filters a registry snapshot down to the positions this tick evaluates,
/// keeping their order.
pub fn select_for_evaluation(
    snapshot: &Vec<MonitoredPosition>,
    now: i64,
    config: &LiquidationConfig,
) -> (r: Vec<Position>)
    ensures
        r@ == spec_selected(snapshot@, now, *config),
{
    let n: usize = snapshot.len();
    let mut out: Vec<Position> = Vec::new();
    let mut i: usize = 0;
    proof {
        assert(out@ =~= spec_selected(snapshot@.take(0), now, *config));
    }
    while i < n
        invariant
            i <= n == snapshot@.len(),
            out@ == spec_selected(snapshot@.take(i as int), now, *config),
        decreases n - i,
    {
        proof {
            assert(snapshot@.take(i as int + 1).drop_last() =~= snapshot@.take(i as int));
            assert(snapshot@.take(i as int + 1).last() == snapshot@[i as int]);
        }
        match evaluation_eligibility(&snapshot[i], now, config) {
            None => {
                out.push(snapshot[i].position.clone());
            },
            Some(_) => {},
        }
        i = i + 1;
    }
    proof {
        assert(snapshot@.take(n as int) =~= snapshot@);
    }
    out
}

/// Cuts the selected positions into batches of at most `max_batch` each:
/// batch `b` holds the positions from `b * max_batch` up to the next cut,
/// every batch except the last is full, and none is empty.
pub fn partition_batches(items: &Vec<Position>, max_batch: usize) -> (r: Vec<Vec<Position>>)
    requires
        max_batch >= 1,
    ensures
        items@.len() == 0 ==> r@.len() == 0,
        items@.len() > 0 ==> (r@.len() - 1) * max_batch < items@.len() <= r@.len() * max_batch,
        forall|b: int|
            0 <= b < r@.len() ==> #[trigger] r@[b]@ == items@.subrange(
                b * max_batch,
                if (b + 1) * max_batch < items@.len() {
                    (b + 1) * max_batch
                } else {
                    items@.len() as int
                },
            ),
{
    let n: usize = items.len();
    let mut out: Vec<Vec<Position>> = Vec::new();
    let mut i: usize = 0;
    proof {
        assert(out@.len() * max_batch == 0) by (nonlinear_arith)
            requires
                out@.len() == 0,
        ;
    }
    while i < n
        invariant
            i <= n == items@.len(),
            max_batch >= 1,
            i == out@.len() * max_batch || i == n,
            out@.len() == 0 ==> i == 0,
            out@.len() > 0 ==> (out@.len() - 1) * max_batch < i <= out@.len() * max_batch,
            forall|b: int|
                0 <= b < out@.len() ==> #[trigger] out@[b]@ == items@.subrange(
                    b * max_batch,
                    if (b + 1) * max_batch < items@.len() {
                        (b + 1) * max_batch
                    } else {
                        items@.len() as int
                    },
                ),
        decreases n - i,
    {
        let start: usize = i;
        let end: usize = if n - i < max_batch {
            n
        } else {
            i + max_batch
        };
        let mut batch: Vec<Position> = Vec::new();
        while i < end
            invariant
                start <= i <= end <= n == items@.len(),
                batch@ == items@.subrange(start as int, i as int),
            decreases end - i,
        {
            proof {
                assert(items@.subrange(start as int, i as int + 1) =~= items@.subrange(
                    start as int,
                    i as int,
                ).push(items@[i as int]));
            }
            batch.push(items[i].clone());
            i = i + 1;
        }
        proof {
            let b = out@.len() as int;
            assert((b + 1) * max_batch == b * max_batch + max_batch) by (nonlinear_arith);
        }
        out.push(batch);
    }
    proof {
        if n > 0 {
            assert(out@.len() > 0);
        }
    }
    out
}

/// Cooldown law, at the level of one entry: while `now` lies within the
/// cooldown window of a recorded liquidation, the entry is not evaluated,
/// whatever its status; an otherwise dispatchable entry is excluded for
/// exactly that reason.
pub proof fn lemma_cooldown_blocks_evaluation(
    entry: MonitoredPosition,
    t: i64,
    now: i64,
    config: LiquidationConfig,
)
    requires
        entry.position.last_liquidated == Some(t),
        now - t < config.liquidation_cooldown_secs,
    ensures
        spec_eligibility(entry, now, config) is Some,
        entry.status == PositionStatus::Active || entry.status == PositionStatus::AtRisk
            ==> spec_eligibility(entry, now, config) == Some(SkipReason::CooldownActive),
{
}

/// Cooldown law, at the level of the registry: after a successful
/// liquidation of the position at `address` is recorded at time `t` — the
/// exact change `PositionRegistry::record_cooldown` makes — the position is
/// not dispatched at any `now` before the cooldown has elapsed.
pub proof fn lemma_cooldown_blocks_redispatch(
    s: Seq<MonitoredPosition>,
    address: u64,
    t: i64,
    now: i64,
    config: LiquidationConfig,
)
    requires
        addresses_unique(s),
        spec_contains_address(s, address),
        now - t < config.liquidation_cooldown_secs,
    ensures
        ({
            let updated = MonitoredPosition {
                position: Position {
                    last_liquidated: Some(t),
                    ..spec_entry_for(s, address).position
                },
                status: spec_entry_for(s, address).status,
            };
            let s2 = s.update(spec_index_of(s, address), updated);
            spec_contains_address(s2, address) && spec_eligibility(
                spec_entry_for(s2, address),
                now,
                config,
            ) is Some
        }),
{
    let i = spec_index_of(s, address);
    registry::lemma_index_of_found(s, address);
    let updated = MonitoredPosition {
        position: Position { last_liquidated: Some(t), ..spec_entry_for(s, address).position },
        status: spec_entry_for(s, address).status,
    };
    let s2 = s.update(i, updated);
    assert(addresses_unique(s2)) by {
        assert(forall|k: int| 0 <= k < s2.len() && k != i ==> s2[k] == s[k]);
        assert(s2[i].position.address == s[i].position.address);
    }
    registry::lemma_index_of_is_unique_match(s2, address, i);
    lemma_cooldown_blocks_evaluation(spec_entry_for(s2, address), t, now, config);
}

} // verus!
