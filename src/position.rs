//! The position ledger: open and closed positions and their profit and loss.
use vstd::prelude::*;
use crate::execution::Fill;
use crate::fixed::{mul_raw, Fixed, BOUND};
use crate::market::Market;
use crate::signal::{Side, Signal};

verus! {

/// An open position.
#[derive(Clone, Debug)]
pub struct Position {
    pub id: String,
    pub market: Market,
    pub side: Side,
    pub entry_price: Fixed,
    pub size: Fixed,
    /// Entry instant, microseconds since the epoch.
    pub entry_time: i64,
    pub unrealized_pnl: Fixed,
}

/// A position after its exit.
#[derive(Clone, Debug)]
pub struct ClosedPosition {
    pub position: Position,
    pub exit_price: Fixed,
    pub exit_time: i64,
    /// Profit less the exit fees.
    pub realized_pnl: Fixed,
    pub fees: Fixed,
}

/// Profit of a position of `size` entered at `entry` and valued at `price`:
/// `(price − entry) · size` for YES, `(entry − price) · size` for NO.
pub open spec fn pnl_of(side: Side, entry: int, price: int, size: int) -> int {
    match side {
        Side::Yes => mul_raw(price - entry, size),
        Side::No => mul_raw(entry - price, size),
    }
}

/// Sum of the realized profits of closed positions.
pub open spec fn realized_sum(s: Seq<ClosedPosition>) -> int
    decreases s.len(),
{
    if s.len() == 0 {
        0
    } else {
        realized_sum(s.drop_last()) + s.last().realized_pnl.v()
    }
}

/// Sum of the unrealized profits of open positions.
pub open spec fn unrealized_sum(s: Seq<Position>) -> int
    decreases s.len(),
{
    if s.len() == 0 {
        0
    } else {
        unrealized_sum(s.drop_last()) + s.last().unrealized_pnl.v()
    }
}

/// Exposure of one open position: `size · entry_price`.
pub open spec fn entry_value(p: Position) -> int {
    mul_raw(p.size.v(), p.entry_price.v())
}

/// Total entry value of open positions.
pub open spec fn exposure_sum(s: Seq<Position>) -> int
    decreases s.len(),
{
    if s.len() == 0 {
        0
    } else {
        exposure_sum(s.drop_last()) + entry_value(s.last())
    }
}

/// An open position's price and size are bounded and not negative.
pub open spec fn position_ok(p: Position) -> bool {
    p.entry_price.bounded() && p.size.bounded() && p.entry_price.v() >= 0 && p.size.v() >= 0
}

proof fn lemma_entry_value_nonneg(p: Position)
    requires
        position_ok(p),
    ensures
        0 <= entry_value(p),
{
    let a = p.size.v();
    let b = p.entry_price.v();
    assert(a * b >= 0) by (nonlinear_arith) requires a >= 0, b >= 0;
}

proof fn lemma_exposure_nonneg(s: Seq<Position>)
    requires
        forall|i: int| 0 <= i < s.len() ==> position_ok(#[trigger] s[i]),
    ensures
        exposure_sum(s) >= 0,
    decreases s.len(),
{
    if s.len() > 0 {
        lemma_exposure_nonneg(s.drop_last());
        lemma_entry_value_nonneg(s.last());
    }
}

proof fn lemma_exposure_remove(s: Seq<Position>, i: int)
    requires
        0 <= i < s.len(),
    ensures
        exposure_sum(s.remove(i)) == exposure_sum(s) - entry_value(s[i]),
    decreases s.len(),
{
    if i == s.len() - 1 {
        assert(s.remove(i) =~= s.drop_last());
    } else {
        lemma_exposure_remove(s.drop_last(), i);
        assert(s.remove(i).drop_last() =~= s.drop_last().remove(i));
        assert(s.remove(i).last() == s.last());
    }
}

proof fn lemma_exposure_same(s: Seq<Position>, t: Seq<Position>)
    requires
        s.len() == t.len(),
        forall|i: int| 0 <= i < s.len() ==> entry_value(#[trigger] s[i]) == entry_value(t[i]),
    ensures
        exposure_sum(s) == exposure_sum(t),
    decreases s.len(),
{
    if s.len() > 0 {
        lemma_exposure_same(s.drop_last(), t.drop_last());
    }
}

/// Largest number of positions a ledger keeps on either list.
pub const MAX_POSITIONS: usize = 1_000_000;

/// Open positions (in order of opening), closed positions and exposure.
pub struct PositionTracker {
    pub open_positions: Vec<Position>,
    pub closed_positions: Vec<ClosedPosition>,
    pub total_exposure: Fixed,
}

impl PositionTracker {
    /// Exposure is the total entry value of the open positions, each of which
    /// has a bounded, non-negative price and size; open positions have
    /// distinct ids.
    pub open spec fn wf(&self) -> bool {
        &&& forall|i: int| 0 <= i < self.open_positions@.len() ==> position_ok(#[trigger] self.open_positions@[i])
        &&& self.total_exposure.v() == exposure_sum(self.open_positions@)
        &&& forall|i: int, j: int|
            0 <= i < j < self.open_positions@.len() ==> (#[trigger] self.open_positions@[i]).id@ != (#[trigger] self.open_positions@[j]).id@
    }

    /// The ids of the open positions, in order.
    fn open_ids(&self) -> (r: Vec<String>)
        ensures
            r@.len() == self.open_positions@.len(),
            forall|k: int| 0 <= k < r@.len() ==> (#[trigger] r@[k])@ == self.open_positions@[k].id@,
    {
        let mut out: Vec<String> = Vec::new();
        let mut i: usize = 0;
        while i < self.open_positions.len()
            invariant
                0 <= i <= self.open_positions@.len(),
                out@.len() == i,
                forall|k: int| 0 <= k < i ==> (#[trigger] out@[k])@ == self.open_positions@[k].id@,
            decreases self.open_positions@.len() - i,
        {
            out.push(self.open_positions[i].id.clone());
            i = i + 1;
        }
        out
    }

    pub fn new() -> (r: PositionTracker)
        ensures
            r.wf(),
            r.open_positions@.len() == 0,
            r.closed_positions@.len() == 0,
            r.total_exposure.v() == 0,
    {
        PositionTracker { open_positions: Vec::new(), closed_positions: Vec::new(), total_exposure: Fixed::zero() }
    }

    /// Same as `new`.
    pub fn default() -> (r: PositionTracker)
        ensures
            r.wf(),
            r.open_positions@.len() == 0,
            r.closed_positions@.len() == 0,
            r.total_exposure.v() == 0,
    {
        Self::new()
    }

    /// Open a position for `signal` at the fill's price and size, under a
    /// fresh random id; exposure grows by `size · price`.
    pub fn open(&mut self, signal: &Signal, fill: &Fill) -> (r: Position)
        requires
            old(self).wf(),
            fill.price.bounded(),
            fill.size.bounded(),
            fill.price.v() >= 0,
            fill.size.v() >= 0,
            old(self).total_exposure.v() + mul_raw(fill.size.v(), fill.price.v()) <= i64::MAX,
        ensures
            final(self).wf(),
            forall|k: int| 0 <= k < old(self).open_positions@.len() ==> (#[trigger] old(self).open_positions@[k]).id@ != r.id@,
            r.market == signal.market,
            r.side == signal.side,
            r.entry_price == fill.price,
            r.size == fill.size,
            r.entry_time == fill.timestamp,
            r.unrealized_pnl.v() == 0,
            final(self).open_positions@ == old(self).open_positions@.push(r),
            final(self).closed_positions@ == old(self).closed_positions@,
            final(self).total_exposure.v() == old(self).total_exposure.v() + mul_raw(fill.size.v(), fill.price.v()),
    {
        let taken = self.open_ids();
        let id = crate::ids::unique_id(&taken);
        proof {
            assert forall|k: int| 0 <= k < old(self).open_positions@.len() implies (#[trigger] old(self).open_positions@[k]).id@ != id@ by {
                assert(taken@[k]@ == old(self).open_positions@[k].id@);
            }
        }
        let position = Position {
            id: id.clone(),
            market: signal.market.duplicate(),
            side: signal.side,
            entry_price: fill.price,
            size: fill.size,
            entry_time: fill.timestamp,
            unrealized_pnl: Fixed::zero(),
        };
        let stored = Position {
            id,
            market: signal.market.duplicate(),
            side: signal.side,
            entry_price: fill.price,
            size: fill.size,
            entry_time: fill.timestamp,
            unrealized_pnl: Fixed::zero(),
        };
        proof {
            crate::fixed::lemma_mul_bounded(fill.size, fill.price);
        }
        proof {
            lemma_entry_value_nonneg(stored);
            lemma_exposure_nonneg(self.open_positions@);
        }
        self.total_exposure = self.total_exposure.add(fill.size.mul(fill.price));
        self.open_positions.push(stored);
        proof {
            assert(self.open_positions@.drop_last() =~= old(self).open_positions@);
        }
        position
    }

    /// Close the first open position with id `position_id` at the fill:
    /// realized profit is the side's profit less the fill's fees; exposure
    /// shrinks by the position's entry value. Absent id: nothing changes.
    #[verifier::rlimit(60)]
    pub fn close(&mut self, position_id: &str, fill: &Fill) -> (r: Option<ClosedPosition>)
        requires
            old(self).wf(),
            fill.price.bounded(),
            fill.fees.bounded(),
        ensures
            final(self).wf(),
            match r {
                None => {
                    &&& forall|i: int| 0 <= i < old(self).open_positions@.len() ==> (#[trigger] old(self).open_positions@[i]).id@ != position_id@
                    &&& final(self).open_positions@ == old(self).open_positions@
                    &&& final(self).closed_positions@ == old(self).closed_positions@
                    &&& final(self).total_exposure == old(self).total_exposure
                },
                Some(c) => exists|i: int| {
                    &&& 0 <= i < old(self).open_positions@.len()
                    &&& #[trigger] old(self).open_positions@[i] == c.position
                    &&& c.position.id@ == position_id@
                    &&& forall|k: int| 0 <= k < i ==> (#[trigger] old(self).open_positions@[k]).id@ != position_id@
                    &&& final(self).open_positions@ == old(self).open_positions@.remove(i)
                    &&& forall|k: int| 0 <= k < final(self).open_positions@.len() ==> (#[trigger] final(self).open_positions@[k]).id@ != position_id@
                    &&& final(self).closed_positions@ == old(self).closed_positions@.push(c)
                    &&& c.exit_price == fill.price
                    &&& c.exit_time == fill.timestamp
                    &&& c.fees == fill.fees
                    &&& c.realized_pnl.v() == pnl_of(c.position.side, c.position.entry_price.v(), fill.price.v(), c.position.size.v()) - fill.fees.v()
                    &&& final(self).total_exposure.v() == old(self).total_exposure.v() - entry_value(c.position)
                },
            },
    {
        let mut i: usize = 0;
        while i < self.open_positions.len()
            invariant
                0 <= i <= self.open_positions@.len(),
                self.open_positions@ == old(self).open_positions@,
                forall|k: int| 0 <= k < i ==> (#[trigger] self.open_positions@[k]).id@ != position_id@,
            ensures
                0 <= i <= self.open_positions@.len(),
                self.open_positions@ == old(self).open_positions@,
                forall|k: int| 0 <= k < i ==> (#[trigger] self.open_positions@[k]).id@ != position_id@,
                i < self.open_positions@.len() ==> self.open_positions@[i as int].id@ == position_id@,
            decreases self.open_positions@.len() - i,
        {
            if str_eq(self.open_positions[i].id.as_str(), position_id) {
                break;
            }
            i = i + 1;
        }
        if i == self.open_positions.len() {
            return None;
        }
        let position = self.open_positions.remove(i);
        let diff = match position.side {
            Side::Yes => fill.price.sub(position.entry_price),
            Side::No => position.entry_price.sub(fill.price),
        };
        proof {
            crate::fixed::lemma_mul_wide(diff, position.size);
        }
        let pnl = diff.mul(position.size);
        let realized = pnl.sub(fill.fees);
        proof {
            crate::fixed::lemma_mul_bounded(position.size, position.entry_price);
            lemma_exposure_remove(old(self).open_positions@, i as int);
            assert forall|k: int| 0 <= k < self.open_positions@.len() implies position_ok(#[trigger] self.open_positions@[k]) by {
                if k < i {
                    assert(self.open_positions@[k] == old(self).open_positions@[k]);
                } else {
                    assert(self.open_positions@[k] == old(self).open_positions@[k + 1]);
                }
            }
            lemma_exposure_nonneg(self.open_positions@);
            let o = old(self).open_positions@;
            let ii = i as int;
            assert forall|a: int, b: int|
                0 <= a < b < self.open_positions@.len() implies (#[trigger] self.open_positions@[a]).id@ != (#[trigger] self.open_positions@[b]).id@ by {
                let a1 = if a < ii { a } else { a + 1 };
                let b1 = if b < ii { b } else { b + 1 };
                assert(self.open_positions@[a] == o[a1]);
                assert(self.open_positions@[b] == o[b1]);
            }
            assert forall|k: int| 0 <= k < self.open_positions@.len() implies (#[trigger] self.open_positions@[k]).id@ != position_id@ by {
                let k1 = if k < ii { k } else { k + 1 };
                assert(self.open_positions@[k] == o[k1]);
            }
        }
        self.total_exposure = self.total_exposure.sub(position.size.mul(position.entry_price));
        let stored = ClosedPosition {
            position: position.duplicate(),
            exit_price: fill.price,
            exit_time: fill.timestamp,
            realized_pnl: realized,
            fees: fill.fees,
        };
        self.closed_positions.push(stored);
        let c = ClosedPosition { position, exit_price: fill.price, exit_time: fill.timestamp, realized_pnl: realized, fees: fill.fees };
        proof {
            let ii = i as int;
            assert(old(self).open_positions@[ii] == c.position);
            assert(self.closed_positions@ == old(self).closed_positions@.push(c));
        }
        Some(c)
    }

    /// Revalue every open position on market `market_id` at `current_price`.
    pub fn update_mark(&mut self, market_id: &str, current_price: Fixed)
        requires
            old(self).wf(),
            current_price.bounded(),
        ensures
            final(self).wf(),
            final(self).open_positions@.len() == old(self).open_positions@.len(),
            final(self).closed_positions@ == old(self).closed_positions@,
            final(self).total_exposure == old(self).total_exposure,
            forall|i: int|
                0 <= i < old(self).open_positions@.len() ==> {
                    let p = #[trigger] old(self).open_positions@[i];
                    let q = final(self).open_positions@[i];
                    if p.market.condition_id@ == market_id@ {
                        q == Position { unrealized_pnl: Fixed { raw: pnl_of(p.side, p.entry_price.v(), current_price.v(), p.size.v()) as i64 }, ..p }
                    } else {
                        q == p
                    }
                },
    {
        let mut i: usize = 0;
        while i < self.open_positions.len()
            invariant
                0 <= i <= self.open_positions@.len(),
                self.open_positions@.len() == old(self).open_positions@.len(),
                self.closed_positions@ == old(self).closed_positions@,
                self.total_exposure == old(self).total_exposure,
                current_price.bounded(),
                old(self).wf(),
                forall|k: int| i <= k < self.open_positions@.len() ==> #[trigger] self.open_positions@[k] == old(self).open_positions@[k],
                forall|k: int|
                    0 <= k < i ==> {
                        let p = #[trigger] old(self).open_positions@[k];
                        let q = self.open_positions@[k];
                        if p.market.condition_id@ == market_id@ {
                            q == Position { unrealized_pnl: Fixed { raw: pnl_of(p.side, p.entry_price.v(), current_price.v(), p.size.v()) as i64 }, ..p }
                        } else {
                            q == p
                        }
                    },
            decreases self.open_positions@.len() - i,
        {
            if str_eq(self.open_positions[i].market.condition_id.as_str(), market_id) {
                let p = &self.open_positions[i];
                let diff = match p.side {
                    Side::Yes => current_price.sub(p.entry_price),
                    Side::No => p.entry_price.sub(current_price),
                };
                proof {
                    crate::fixed::lemma_mul_wide(diff, p.size);
                }
                let pnl = diff.mul(p.size);
                self.open_positions[i].unrealized_pnl = pnl;
            }
            i = i + 1;
        }
        proof {
            assert forall|k: int| 0 <= k < self.open_positions@.len() implies entry_value(#[trigger] self.open_positions@[k]) == entry_value(old(self).open_positions@[k]) && position_ok(self.open_positions@[k]) by {
                let p = old(self).open_positions@[k];
                assert(position_ok(p));
            }
            lemma_exposure_same(self.open_positions@, old(self).open_positions@);
        }
    }

    /// Realized profit of all closed positions plus unrealized profit of all
    /// open ones.
    pub fn total_pnl(&self) -> (r: Fixed)
        requires
            self.open_positions@.len() <= MAX_POSITIONS,
            self.closed_positions@.len() <= MAX_POSITIONS,
            forall|i: int| 0 <= i < self.open_positions@.len() ==> (#[trigger] self.open_positions@[i]).unrealized_pnl.bounded(),
            forall|i: int| 0 <= i < self.closed_positions@.len() ==> (#[trigger] self.closed_positions@[i]).realized_pnl.bounded(),
        ensures
            r.v() == realized_sum(self.closed_positions@) + unrealized_sum(self.open_positions@),
    {
        let mut realized: i64 = 0;
        let mut i: usize = 0;
        while i < self.closed_positions.len()
            invariant
                0 <= i <= self.closed_positions@.len() <= MAX_POSITIONS,
                forall|k: int| 0 <= k < self.closed_positions@.len() ==> (#[trigger] self.closed_positions@[k]).realized_pnl.bounded(),
                realized == realized_sum(self.closed_positions@.subrange(0, i as int)),
                -(i as int) * BOUND <= realized <= (i as int) * BOUND,
            decreases self.closed_positions@.len() - i,
        {
            proof {
                let s = self.closed_positions@.subrange(0, i + 1);
                assert(s.drop_last() =~= self.closed_positions@.subrange(0, i as int));
            }
            realized = realized + self.closed_positions[i].realized_pnl.raw;
            i = i + 1;
        }
        let mut unrealized: i64 = 0;
        let mut j: usize = 0;
        while j < self.open_positions.len()
            invariant
                0 <= j <= self.open_positions@.len() <= MAX_POSITIONS,
                forall|k: int| 0 <= k < self.open_positions@.len() ==> (#[trigger] self.open_positions@[k]).unrealized_pnl.bounded(),
                unrealized == unrealized_sum(self.open_positions@.subrange(0, j as int)),
                -(j as int) * BOUND <= unrealized <= (j as int) * BOUND,
            decreases self.open_positions@.len() - j,
        {
            proof {
                let s = self.open_positions@.subrange(0, j + 1);
                assert(s.drop_last() =~= self.open_positions@.subrange(0, j as int));
            }
            unrealized = unrealized + self.open_positions[j].unrealized_pnl.raw;
            j = j + 1;
        }
        proof {
            assert(self.closed_positions@.subrange(0, i as int) =~= self.closed_positions@);
            assert(self.open_positions@.subrange(0, j as int) =~= self.open_positions@);
        }
        Fixed { raw: realized + unrealized }
    }

    pub fn open_count(&self) -> (r: usize)
        ensures
            r == self.open_positions@.len(),
    {
        self.open_positions.len()
    }
}

impl Position {
    /// An identical copy.
    pub fn duplicate(&self) -> (r: Position)
        ensures
            r == *self,
    {
        Position {
            id: self.id.clone(),
            market: self.market.duplicate(),
            side: self.side,
            entry_price: self.entry_price,
            size: self.size,
            entry_time: self.entry_time,
            unrealized_pnl: self.unrealized_pnl,
        }
    }
}

/// Character-wise equality of two strings.
pub fn str_eq(a: &str, b: &str) -> (r: bool)
    ensures
        r == (a@ == b@),
{
    let x = a.to_owned();
    let y = b.to_owned();
    x == y
}

} // verus!
