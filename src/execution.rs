//! Orders, fills and the paper execution engine.
use vstd::prelude::*;
use crate::fixed::{mul_raw, Fixed};
use crate::signal::Side;

verus! {

/// Order type.
#[derive(Clone, Copy, Debug, PartialEq, Eq, Structural)]
pub enum OrderType {
    /// Immediate execution.
    Market,
    /// Execution at a stated price.
    Limit,
}

/// An order to submit.
#[derive(Clone, Debug)]
pub struct Order {
    pub token_id: String,
    pub side: Side,
    pub price: Fixed,
    pub size: Fixed,
    pub order_type: OrderType,
}

/// An executed trade.
#[derive(Clone, Debug)]
pub struct Fill {
    pub order_id: String,
    pub token_id: String,
    pub side: Side,
    pub price: Fixed,
    pub size: Fixed,
    /// Fill instant, microseconds since the epoch.
    pub timestamp: i64,
    pub fees: Fixed,
}

/// Fees of a fill: `size · price · fee_rate`.
pub open spec fn fees_of(size: int, price: int, fee_rate: int) -> int {
    mul_raw(mul_raw(size, price), fee_rate)
}

/// The fill of `order` at its own price and size, with identifier
/// `order_id` and time `timestamp`.
pub open spec fn fill_matches(f: Fill, order: Order, order_id: Seq<char>, timestamp: i64, fee_rate: int) -> bool {
    &&& f.order_id@ == order_id
    &&& f.token_id@ == order.token_id@
    &&& f.side == order.side
    &&& f.price == order.price
    &&& f.size == order.size
    &&& f.timestamp == timestamp
    &&& f.fees.v() == fees_of(order.size.v(), order.price.v(), fee_rate)
}

/// Simulated immediate execution with an append-only fill log.
pub struct PaperEngine {
    pub fee_rate: Fixed,
    pub fills: Vec<Fill>,
}

impl PaperEngine {
    pub open spec fn wf(&self) -> bool {
        0 <= self.fee_rate.v() <= 1_000_000
    }

    pub fn new(fee_rate: Fixed) -> (r: PaperEngine)
        ensures
            r.fee_rate == fee_rate,
            r.fills@.len() == 0,
    {
        PaperEngine { fee_rate, fills: Vec::new() }
    }

    /// The fill of `order`: at the order's price and size, fees
    /// `size · price · fee_rate`.
    pub fn fill_order(&self, order: Order, order_id: String, timestamp: i64) -> (r: Fill)
        requires
            self.wf(),
            order.price.bounded(),
            order.size.bounded(),
        ensures
            fill_matches(r, order, order_id@, timestamp, self.fee_rate.v()),
    {
        proof {
            crate::fixed::lemma_mul_bounded(order.size, order.price);
            let n = mul_raw(order.size.v(), order.price.v());
            let f = self.fee_rate.v();
            assert(-1_000_000_000_000_000_000 * 1_000_000 <= n * f <= 1_000_000_000_000_000_000 * 1_000_000) by (nonlinear_arith)
                requires -1_000_000_000_000_000_000 <= n <= 1_000_000_000_000_000_000, 0 <= f <= 1_000_000;
            assert(-1_000_000_000_000_000_000 <= mul_raw(n, f) <= 1_000_000_000_000_000_000) by (nonlinear_arith)
                requires -1_000_000_000_000_000_000 * 1_000_000 <= n * f <= 1_000_000_000_000_000_000 * 1_000_000,
                    mul_raw(n, f) == (if n * f >= 0 { (n * f) / 1_000_000 } else { -((-(n * f)) / 1_000_000) });
        }
        let notional = order.size.mul(order.price);
        let fees = notional.mul(self.fee_rate);
        Fill {
            order_id,
            token_id: order.token_id,
            side: order.side,
            price: order.price,
            size: order.size,
            timestamp,
            fees,
        }
    }

    /// Fill `order` immediately, log the fill, and return its order id, which
    /// differs from every id already in the log.
    pub fn submit_order(&mut self, order: Order) -> (r: String)
        requires
            old(self).wf(),
            order.price.bounded(),
            order.size.bounded(),
        ensures
            final(self).fee_rate == old(self).fee_rate,
            final(self).fills@.len() == old(self).fills@.len() + 1,
            final(self).fills@.subrange(0, old(self).fills@.len() as int) == old(self).fills@,
            exists|t: i64| fill_matches(#[trigger] final(self).fills@.last(), order, r@, t, old(self).fee_rate.v()),
            forall|i: int| 0 <= i < old(self).fills@.len() ==> (#[trigger] old(self).fills@[i]).order_id@ != r@,
    {
        let taken = self.order_ids();
        let order_id = crate::ids::unique_id(&taken);
        proof {
            assert forall|i: int| 0 <= i < old(self).fills@.len() implies (#[trigger] old(self).fills@[i]).order_id@ != order_id@ by {
                assert(taken@[i]@ == old(self).fills@[i].order_id@);
            }
        }
        let now = crate::clock::now_micros();
        let fill = self.fill_order(order, order_id.clone(), now);
        self.fills.push(fill);
        proof {
            assert(self.fills@.subrange(0, old(self).fills@.len() as int) =~= old(self).fills@);
            assert(fill_matches(self.fills@.last(), order, order_id@, now, old(self).fee_rate.v()));
        }
        order_id
    }

    /// The order ids of the fill log, in order.
    fn order_ids(&self) -> (r: Vec<String>)
        ensures
            r@.len() == self.fills@.len(),
            forall|k: int| 0 <= k < r@.len() ==> (#[trigger] r@[k])@ == self.fills@[k].order_id@,
    {
        let mut out: Vec<String> = Vec::new();
        let mut i: usize = 0;
        while i < self.fills.len()
            invariant
                0 <= i <= self.fills@.len(),
                out@.len() == i,
                forall|k: int| 0 <= k < i ==> (#[trigger] out@[k])@ == self.fills@[k].order_id@,
            decreases self.fills@.len() - i,
        {
            out.push(self.fills[i].order_id.clone());
            i = i + 1;
        }
        out
    }

    /// Cancelling is a no-op: paper orders fill at once.
    pub fn cancel_order(&self, id: &str) {
    }

    /// The fill log, oldest first.
    pub fn get_fills(&self) -> (r: &Vec<Fill>)
        ensures
            r@ == self.fills@,
    {
        &self.fills
    }
}

} // verus!
