//! The position registry: the engine's authoritative in-memory copy of the
//! positions it monitors, keyed by the position's ledger address.
//!
//! The surrounding binary guards one registry with a reader-writer lock and
//! snapshots it before any oracle or ledger call, so the lock is never held
//! across a suspension. Every mutation here states exactly which entry
//! changes; the `Liquidating` status marker set by
//! [`PositionRegistry::try_begin_liquidation`] is what keeps two overlapping
//! evaluations of one position from both reaching submission.

use vstd::prelude::*;
use crate::position::Position;
use crate::types::PositionStatus;

verus! {

/// A position together with its monitoring status.
#[derive(Debug)]
pub struct MonitoredPosition {
    /// The tracked position.
    pub position: Position,
    /// Where the position stands in the status machine.
    pub status: PositionStatus,
}

impl Clone for MonitoredPosition {
    /// Clones both fields unchanged.
    fn clone(&self) -> (r: Self)
        ensures
            r == *self,
    {
        MonitoredPosition { position: self.position.clone(), status: self.status }
    }
}

/// The index of the entry for address `a`, or a negative value when no
/// entry carries it. Under the registry invariant the entry with a given
/// address is unique, so this picks it out.
pub open spec fn spec_index_of(s: Seq<MonitoredPosition>, a: u64) -> int
    decreases s.len(),
{
    if s.len() == 0 {
        -1
    } else if s.last().position.address == a {
        s.len() - 1
    } else {
        spec_index_of(s.drop_last(), a)
    }
}

/// Whether some entry carries address `a`.
pub open spec fn spec_contains_address(s: Seq<MonitoredPosition>, a: u64) -> bool {
    spec_index_of(s, a) >= 0
}

/// The entry carrying address `a`; meaningful only when one exists.
pub open spec fn spec_entry_for(s: Seq<MonitoredPosition>, a: u64) -> MonitoredPosition {
    s[spec_index_of(s, a)]
}

/// No two entries carry the same address.
pub open spec fn addresses_unique(s: Seq<MonitoredPosition>) -> bool {
    forall|i: int, j: int|
        0 <= i < j < s.len() ==> s[i].position.address != s[j].position.address
}

/// Every tracked position is within the engine's amount bounds.
pub open spec fn entries_wf(s: Seq<MonitoredPosition>) -> bool {
    forall|i: int| 0 <= i < s.len() ==> (#[trigger] s[i]).position.wf()
}

/// A found index is in range and carries the address.
pub proof fn lemma_index_of_found(s: Seq<MonitoredPosition>, a: u64)
    requires
        spec_index_of(s, a) >= 0,
    ensures
        spec_index_of(s, a) < s.len(),
        s[spec_index_of(s, a)].position.address == a,
    decreases s.len(),
{
    if s.len() > 0 && s.last().position.address != a {
        lemma_index_of_found(s.drop_last(), a);
    }
}

/// A negative index means no entry carries the address.
pub proof fn lemma_index_of_absent(s: Seq<MonitoredPosition>, a: u64)
    requires
        spec_index_of(s, a) < 0,
    ensures
        forall|i: int| 0 <= i < s.len() ==> (#[trigger] s[i]).position.address != a,
    decreases s.len(),
{
    if s.len() > 0 {
        lemma_index_of_absent(s.drop_last(), a);
        assert(forall|i: int|
            0 <= i < s.len() - 1 ==> s.drop_last()[i] == (#[trigger] s[i]));
    }
}

/// Under unique addresses, any entry carrying the address stands at the
/// found index.
pub proof fn lemma_index_of_is_unique_match(s: Seq<MonitoredPosition>, a: u64, i: int)
    requires
        addresses_unique(s),
        0 <= i < s.len(),
        s[i].position.address == a,
    ensures
        spec_index_of(s, a) == i,
{
    if spec_index_of(s, a) < 0 {
        lemma_index_of_absent(s, a);
    } else {
        lemma_index_of_found(s, a);
    }
}

/// The concurrent mapping from position address to position state. The
/// structure itself is sequential; the binary wraps it in a single
/// reader-writer lock as the design prescribes.
#[derive(Debug)]
pub struct PositionRegistry {
    entries: Vec<MonitoredPosition>,
}

impl PositionRegistry {
    /// The entries in insertion order.
    pub closed spec fn view(&self) -> Seq<MonitoredPosition> {
        self.entries@
    }

    /// Registry invariant: addresses unique, every position within bounds.
    pub open spec fn wf(&self) -> bool {
        &&& addresses_unique(self@)
        &&& entries_wf(self@)
    }

    /// An empty registry.
    pub fn new() -> (r: PositionRegistry)
        ensures
            r.wf(),
            r@.len() == 0,
    {
        PositionRegistry { entries: Vec::new() }
    }

    /// How many positions are tracked.
    pub fn len(&self) -> (r: usize)
        ensures
            r == self@.len(),
    {
        self.entries.len()
    }

    /// The index of the entry for `address`, if one exists.
    fn find_index(&self, address: u64) -> (r: Option<usize>)
        requires
            self.wf(),
        ensures
            match r {
                Some(i) => i == spec_index_of(self@, address) && i < self@.len()
                    && self@[i as int].position.address == address,
                None => !spec_contains_address(self@, address),
            },
    {
        let n: usize = self.entries.len();
        let mut i: usize = 0;
        while i < n
            invariant
                i <= n == self@.len(),
                self.wf(),
                forall|j: int| 0 <= j < i ==> (#[trigger] self@[j]).position.address != address,
            decreases n - i,
        {
            if self.entries[i].position.address == address {
                proof {
                    lemma_index_of_is_unique_match(self@, address, i as int);
                }
                return Some(i);
            }
            i = i + 1;
        }
        proof {
            if spec_index_of(self@, address) >= 0 {
                lemma_index_of_found(self@, address);
            }
        }
        None
    }

    /// Starts monitoring `position`, or replaces the tracked state of a
    /// position already monitored under the same address; either way the
    /// entry starts `Active` with the given position.
    pub fn add(&mut self, position: Position)
        requires
            old(self).wf(),
            position.wf(),
        ensures
            final(self).wf(),
            spec_contains_address(old(self)@, position.address) ==> final(self)@ == old(
                self,
            )@.update(
                spec_index_of(old(self)@, position.address),
                MonitoredPosition { position, status: PositionStatus::Active },
            ),
            !spec_contains_address(old(self)@, position.address) ==> final(self)@ == old(
                self,
            )@.push(MonitoredPosition { position, status: PositionStatus::Active }),
    {
        let entry = MonitoredPosition { position, status: PositionStatus::Active };
        let found = self.find_index(entry.position.address);
        match found {
            Some(i) => {
                self.entries[i] = entry;
                proof {
                    assert(addresses_unique(self@) && entries_wf(self@)) by {
                        assert(forall|k: int|
                            0 <= k < self@.len() && k != i ==> self@[k] == old(self)@[k]);
                    }
                }
            },
            None => {
                proof {
                    lemma_index_of_absent(old(self)@, entry.position.address);
                }
                self.entries.push(entry);
                proof {
                    assert(addresses_unique(self@) && entries_wf(self@)) by {
                        assert(forall|k: int|
                            0 <= k < self@.len() - 1 ==> self@[k] == old(self)@[k]);
                    }
                }
            },
        }
    }

    /// Stops monitoring the position at `address`; a position not tracked
    /// is left as it is.
    pub fn remove(&mut self, address: u64)
        requires
            old(self).wf(),
        ensures
            final(self).wf(),
            spec_contains_address(old(self)@, address) ==> final(self)@ == old(self)@.remove(
                spec_index_of(old(self)@, address),
            ),
            !spec_contains_address(old(self)@, address) ==> final(self)@ == old(self)@,
    {
        let found = self.find_index(address);
        match found {
            Some(i) => {
                let _ = self.entries.remove(i);
                proof {
                    assert(addresses_unique(self@) && entries_wf(self@)) by {
                        assert(forall|k: int|
                            0 <= k < i ==> self@[k] == old(self)@[k]);
                        assert(forall|k: int|
                            i <= k < self@.len() ==> self@[k] == old(self)@[k + 1]);
                    }
                }
            },
            None => {},
        }
    }

    /// A copy of every tracked entry, in insertion order. The caller reads
    /// the copy with no lock held, so a slow oracle or ledger call never
    /// blocks mutations.
    pub fn snapshot(&self) -> (r: Vec<MonitoredPosition>)
        ensures
            r@ == self@,
    {
        let n: usize = self.entries.len();
        let mut out: Vec<MonitoredPosition> = Vec::new();
        let mut i: usize = 0;
        while i < n
            invariant
                i <= n == self@.len(),
                out@ =~= self@.take(i as int),
            decreases n - i,
        {
            out.push(self.entries[i].clone());
            proof {
                assert(out@ =~= self@.take(i as int + 1));
            }
            i = i + 1;
        }
        proof {
            assert(self@.take(n as int) =~= self@);
        }
        out
    }

    /// A copy of the entry tracked at `address`, if any.
    pub fn get(&self, address: u64) -> (r: Option<MonitoredPosition>)
        requires
            self.wf(),
        ensures
            match r {
                Some(e) => spec_contains_address(self@, address) && e == spec_entry_for(
                    self@,
                    address,
                ),
                None => !spec_contains_address(self@, address),
            },
    {
        match self.find_index(address) {
            Some(i) => Some(self.entries[i].clone()),
            None => None,
        }
    }

    /// Records that the position at `address` was liquidated at
    /// `timestamp`: only its cooldown stamp changes, and only on that
    /// entry. Recorded on success alone — a failed attempt leaves the
    /// position eligible for the next tick.
    pub fn record_cooldown(&mut self, address: u64, timestamp: i64)
        requires
            old(self).wf(),
        ensures
            final(self).wf(),
            spec_contains_address(old(self)@, address) ==> final(self)@ == old(self)@.update(
                spec_index_of(old(self)@, address),
                MonitoredPosition {
                    position: Position {
                        last_liquidated: Some(timestamp),
                        ..spec_entry_for(old(self)@, address).position
                    },
                    status: spec_entry_for(old(self)@, address).status,
                },
            ),
            !spec_contains_address(old(self)@, address) ==> final(self)@ == old(self)@,
    {
        let found = self.find_index(address);
        match found {
            Some(i) => {
                self.entries[i].position.last_liquidated = Some(timestamp);
                proof {
                    assert(addresses_unique(self@) && entries_wf(self@)) by {
                        assert(forall|k: int|
                            0 <= k < self@.len() && k != i ==> self@[k] == old(self)@[k]);
                    }
                }
            },
            None => {},
        }
    }

    /// Moves the position at `address` to `status`, provided the status
    /// machine allows the step; returns whether it did. Nothing else
    /// changes.
    pub fn set_status(&mut self, address: u64, status: PositionStatus) -> (r: bool)
        requires
            old(self).wf(),
        ensures
            final(self).wf(),
            r == (spec_contains_address(old(self)@, address) && spec_entry_for(
                old(self)@,
                address,
            ).status.spec_can_transition(status)),
            r ==> final(self)@ == old(self)@.update(
                spec_index_of(old(self)@, address),
                MonitoredPosition {
                    position: spec_entry_for(old(self)@, address).position,
                    status,
                },
            ),
            !r ==> final(self)@ == old(self)@,
    {
        let found = self.find_index(address);
        match found {
            Some(i) => {
                if self.entries[i].status.can_transition(status) {
                    self.entries[i].status = status;
                    proof {
                        assert(addresses_unique(self@) && entries_wf(self@)) by {
                            assert(forall|k: int|
                                0 <= k < self@.len() && k != i ==> self@[k] == old(self)@[k]);
                        }
                    }
                    true
                } else {
                    false
                }
            },
            None => false,
        }
    }

    /// Whether an execution attempt may begin for the position at
    /// `address`: true exactly when the position is tracked and no attempt
    /// is in flight or settled — its status is `Active` or `AtRisk`.
    pub open spec fn spec_can_begin(s: Seq<MonitoredPosition>, address: u64) -> bool {
        spec_contains_address(s, address) && (spec_entry_for(s, address).status
            == PositionStatus::AtRisk || spec_entry_for(s, address).status
            == PositionStatus::Active)
    }

    /// Claims the position at `address` for one execution attempt: when
    /// the position is tracked and no attempt is in flight, its status
    /// becomes `Liquidating` and the claim succeeds; otherwise nothing
    /// changes and the claim fails, so of several overlapping dispatches
    /// of one position exactly the first reaches submission. A claim on an
    /// `Active` position passes through `AtRisk` within the same step: the
    /// claim is what commits the at-risk decision.
    pub fn try_begin_liquidation(&mut self, address: u64) -> (r: bool)
        requires
            old(self).wf(),
        ensures
            final(self).wf(),
            r == Self::spec_can_begin(old(self)@, address),
            r ==> final(self)@ == old(self)@.update(
                spec_index_of(old(self)@, address),
                MonitoredPosition {
                    position: spec_entry_for(old(self)@, address).position,
                    status: PositionStatus::Liquidating,
                },
            ),
            !r ==> final(self)@ == old(self)@,
    {
        let found = self.find_index(address);
        match found {
            Some(i) => {
                let eligible: bool = match self.entries[i].status {
                    PositionStatus::Active => true,
                    PositionStatus::AtRisk => true,
                    _ => false,
                };
                if eligible {
                    self.entries[i].status = PositionStatus::Liquidating;
                    proof {
                        assert(addresses_unique(self@) && entries_wf(self@)) by {
                            assert(forall|k: int|
                                0 <= k < self@.len() && k != i ==> self@[k] == old(self)@[k]);
                        }
                    }
                    true
                } else {
                    false
                }
            },
            None => false,
        }
    }
}

/// At most one liquidation attempt is in flight per position: once a claim
/// on an address succeeds, every further claim on that address fails until
/// the attempt resolves, however many overlapping evaluations dispatch it.
pub proof fn lemma_at_most_one_in_flight(s: Seq<MonitoredPosition>, address: u64)
    requires
        addresses_unique(s),
        PositionRegistry::spec_can_begin(s, address),
    ensures
        !PositionRegistry::spec_can_begin(
            s.update(
                spec_index_of(s, address),
                MonitoredPosition {
                    position: spec_entry_for(s, address).position,
                    status: PositionStatus::Liquidating,
                },
            ),
            address,
        ),
{
    let i = spec_index_of(s, address);
    lemma_index_of_found(s, address);
    let claimed = MonitoredPosition {
        position: spec_entry_for(s, address).position,
        status: PositionStatus::Liquidating,
    };
    let s2 = s.update(i, claimed);
    assert(addresses_unique(s2)) by {
        assert(forall|k: int| 0 <= k < s2.len() && k != i ==> s2[k] == s[k]);
        assert(s2[i].position.address == s[i].position.address);
    }
    if spec_contains_address(s2, address) {
        lemma_index_of_is_unique_match(s2, address, i);
        assert(spec_entry_for(s2, address).status == PositionStatus::Liquidating);
    }
}

} // verus!
