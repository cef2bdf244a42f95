//! Replay of recorded streams: events merged in time order, and the
//! backtest configuration and result types.
use vstd::prelude::*;
use crate::feed::PriceTick;
use crate::fixed::Fixed;
use crate::market::Market;
use crate::orderbook::OrderBook;

verus! {

/// One replayed event.
#[derive(Clone, Debug)]
pub enum BacktestEvent {
    PriceTick(PriceTick),
    OrderBookUpdate(OrderBook),
    MarketOpen(Market),
    MarketClose(Market),
}

/// Timestamps never decrease along the sequence.
pub open spec fn time_ordered<T>(s: Seq<(i64, T)>) -> bool {
    forall|i: int, j: int| 0 <= i <= j < s.len() ==> (#[trigger] s[i]).0 <= (#[trigger] s[j]).0
}

/// The element occurs in `a` or in `b`.
pub open spec fn from_either<T>(e: (i64, T), a: Seq<(i64, T)>, b: Seq<(i64, T)>) -> bool {
    (exists|i: int| 0 <= i < a.len() && a[i] == e) || (exists|j: int| 0 <= j < b.len() && b[j] == e)
}

/// Merge two time-ordered streams into one; on equal times the first
/// stream's event comes first.
pub fn merge_by_time<T>(a: Vec<(i64, T)>, b: Vec<(i64, T)>) -> (r: Vec<(i64, T)>)
    requires
        time_ordered(a@),
        time_ordered(b@),
    ensures
        time_ordered(r@),
        r@.len() == a@.len() + b@.len(),
        forall|k: int| 0 <= k < r@.len() ==> from_either(#[trigger] r@[k], a@, b@),
        r@.to_multiset() == a@.to_multiset().add(b@.to_multiset()),
{
    broadcast use vstd::seq_lib::group_to_multiset_ensures;
    let ghost a0 = a@;
    let ghost b0 = b@;
    let mut a = a;
    let mut b = b;
    let mut out: Vec<(i64, T)> = Vec::new();
    proof {
        assert(a0.subrange(0, a0.len() as int) =~= a0);
        assert(b0.subrange(0, b0.len() as int) =~= b0);
        assert(a0.subrange(0, 0) =~= Seq::<(i64, T)>::empty());
        assert(b0.subrange(0, 0) =~= Seq::<(i64, T)>::empty());
        assert(out@.to_multiset() =~= a0.subrange(0, 0).to_multiset().add(b0.subrange(0, 0).to_multiset()));
    }
    let ghost mut i: int = 0;
    let ghost mut j: int = 0;
    while a.len() > 0 || b.len() > 0
        invariant
            0 <= i <= a0.len(),
            0 <= j <= b0.len(),
            a@ == a0.subrange(i, a0.len() as int),
            b@ == b0.subrange(j, b0.len() as int),
            time_ordered(a0),
            time_ordered(b0),
            time_ordered(out@),
            out@.len() == i + j,
            forall|k: int| 0 <= k < out@.len() ==> from_either(#[trigger] out@[k], a0, b0),
            out@.len() > 0 ==> (i < a0.len() ==> out@.last().0 <= a0[i].0) && (j < b0.len() ==> out@.last().0 <= b0[j].0),
            out@.to_multiset() == a0.subrange(0, i).to_multiset().add(b0.subrange(0, j).to_multiset()),
        decreases a@.len() + b@.len(),
    {
        let take_a = if a.len() == 0 {
            false
        } else if b.len() == 0 {
            true
        } else {
            a[0].0 <= b[0].0
        };
        let ghost before = out@;
        let ghost a_before = a@;
        let ghost b_before = b@;
        if take_a {
            let e = a.remove(0);
            proof {
                assert(e == a0[i]);
            }
            out.push(e);
            proof {
                assert(out@[out@.len() - 1] == a0[i]);
                i = i + 1;
                assert(a@ =~= a0.subrange(i, a0.len() as int));
            }
        } else {
            let e = b.remove(0);
            proof {
                assert(e == b0[j]);
            }
            out.push(e);
            proof {
                assert(out@[out@.len() - 1] == b0[j]);
                j = j + 1;
                assert(b@ =~= b0.subrange(j, b0.len() as int));
            }
        }
        proof {
            if take_a {
                assert(a0.subrange(0, i) =~= a0.subrange(0, i - 1).push(a0[i - 1]));
                assert(out@ =~= before.push(a0[i - 1]));
                vstd::seq_lib::to_multiset_build(before, a0[i - 1]);
                vstd::seq_lib::to_multiset_build(a0.subrange(0, i - 1), a0[i - 1]);
                assert(out@.to_multiset() =~= a0.subrange(0, i).to_multiset().add(b0.subrange(0, j).to_multiset()));
            } else {
                assert(b0.subrange(0, j) =~= b0.subrange(0, j - 1).push(b0[j - 1]));
                assert(out@ =~= before.push(b0[j - 1]));
                vstd::seq_lib::to_multiset_build(before, b0[j - 1]);
                vstd::seq_lib::to_multiset_build(b0.subrange(0, j - 1), b0[j - 1]);
                assert(out@.to_multiset() =~= a0.subrange(0, i).to_multiset().add(b0.subrange(0, j).to_multiset()));
            }
            assert forall|k: int| 0 <= k < out@.len() implies from_either(#[trigger] out@[k], a0, b0) by {
                if k < before.len() {
                    assert(out@[k] == before[k]);
                }
            }
            assert forall|p: int, q: int| 0 <= p <= q < out@.len() implies (#[trigger] out@[p]).0 <= (#[trigger] out@[q]).0 by {
                if q < before.len() {
                    assert(out@[p] == before[p]);
                    assert(out@[q] == before[q]);
                } else if p < before.len() {
                    assert(out@[p] == before[p]);
                    assert(before[p].0 <= before.last().0);
                }
            }
        }
    }
    proof {
        assert(a0.subrange(0, i) =~= a0);
        assert(b0.subrange(0, j) =~= b0);
    }
    out
}

/// Events in time order, optionally bounded to `[start_time, end_time]`.
pub struct EventStream {
    pub data_dir: String,
    pub start_time: Option<i64>,
    pub end_time: Option<i64>,
    /// Events not yet handed out, last one first.
    pub pending: Vec<(i64, BacktestEvent)>,
}

/// The event time lies within the optional bounds.
pub open spec fn in_bounds(t: i64, start: Option<i64>, end: Option<i64>) -> bool {
    (start matches Some(s) ==> t >= s) && (end matches Some(e) ==> t <= e)
}

impl EventStream {
    pub fn new(data_dir: &str, start_time: Option<i64>, end_time: Option<i64>) -> (r: EventStream)
        ensures
            r.data_dir@ == data_dir@,
            r.start_time == start_time,
            r.end_time == end_time,
            r.pending@.len() == 0,
    {
        EventStream { data_dir: data_dir.to_owned(), start_time, end_time, pending: Vec::new() }
    }

    /// Load the merged events, to be handed out in order.
    pub fn load(&mut self, events: Vec<(i64, BacktestEvent)>)
        ensures
            final(self).pending@ == events@.reverse(),
            final(self).start_time == old(self).start_time,
            final(self).end_time == old(self).end_time,
    {
        let ghost e0 = events@;
        let mut events = events;
        let mut rev: Vec<(i64, BacktestEvent)> = Vec::new();
        while events.len() > 0
            invariant
                events@.len() + rev@.len() == e0.len(),
                events@ == e0.subrange(0, events@.len() as int),
                rev@ == e0.subrange(events@.len() as int, e0.len() as int).reverse(),
            decreases events@.len(),
        {
            let ghost n = events@.len();
            let e = events.pop().unwrap();
            rev.push(e);
            proof {
                assert(events@ =~= e0.subrange(0, n - 1));
                assert(rev@ =~= e0.subrange(n - 1, e0.len() as int).reverse());
            }
        }
        proof {
            assert(e0.subrange(0, e0.len() as int) =~= e0);
            assert(rev@.reverse() =~= e0);
            assert(rev@ =~= e0.reverse());
        }
        self.pending = rev;
    }

    /// The next event within the bounds; the events before it that fall
    /// outside the bounds are dropped. `None` once no event is in bounds,
    /// with nothing left pending.
    pub fn next_event(&mut self) -> (r: Option<(i64, BacktestEvent)>)
        ensures
            final(self).start_time == old(self).start_time,
            final(self).end_time == old(self).end_time,
            final(self).data_dir == old(self).data_dir,
            ({
                let p = old(self).pending@;
                let j = last_in_bounds(p, old(self).start_time, old(self).end_time);
                if j < 0 {
                    r.is_none() && final(self).pending@.len() == 0
                } else {
                    r == Some(p[j]) && final(self).pending@ == p.subrange(0, j)
                }
            }),
    {
        let ghost p0 = self.pending@;
        while self.pending.len() > 0
            invariant
                self.start_time == old(self).start_time,
                self.end_time == old(self).end_time,
                self.data_dir == old(self).data_dir,
                p0 == old(self).pending@,
                self.pending@.len() <= p0.len(),
                self.pending@ == p0.subrange(0, self.pending@.len() as int),
                last_in_bounds(p0, self.start_time, self.end_time) == last_in_bounds(self.pending@, self.start_time, self.end_time),
            decreases self.pending@.len(),
        {
            let ghost before = self.pending@;
            let e = self.pending.pop().unwrap();
            let ok_start = match self.start_time {
                Some(s) => e.0 >= s,
                None => true,
            };
            let ok_end = match self.end_time {
                Some(t) => e.0 <= t,
                None => true,
            };
            proof {
                assert(before.drop_last() =~= self.pending@);
                assert(self.pending@ =~= p0.subrange(0, self.pending@.len() as int));
            }
            if ok_start && ok_end {
                return Some(e);
            }
        }
        None
    }
}

/// Index of the last event of `p` within the bounds, or −1.
pub open spec fn last_in_bounds(p: Seq<(i64, BacktestEvent)>, start: Option<i64>, end: Option<i64>) -> int
    decreases p.len(),
{
    if p.len() == 0 {
        -1
    } else if in_bounds(p.last().0, start, end) {
        p.len() - 1
    } else {
        last_in_bounds(p.drop_last(), start, end)
    }
}

/// Backtest parameters; instants in microseconds.
#[derive(Clone, Debug)]
pub struct BacktestConfig {
    pub data_dir: String,
    pub start_time: Option<i64>,
    pub end_time: Option<i64>,
    pub initial_capital: Fixed,
    pub latency_ms: u64,
    pub fee_rate: Fixed,
}

/// Summary figures of a backtest.
#[derive(Clone, Copy, Debug)]
pub struct BacktestSummary {
    pub total_pnl: Fixed,
    pub net_pnl: Fixed,
    pub sharpe_ratio: Fixed,
    pub sortino_ratio: Fixed,
    pub win_rate: Fixed,
    pub profit_factor: Fixed,
    pub max_drawdown: Fixed,
    pub max_drawdown_pct: Fixed,
    pub total_trades: usize,
    pub avg_trade_duration_secs: u64,
    pub avg_edge: Fixed,
}

impl BacktestSummary {
    /// All figures zero.
    pub fn default() -> (r: BacktestSummary)
        ensures
            r.total_pnl.v() == 0 && r.net_pnl.v() == 0 && r.total_trades == 0 && r.win_rate.v() == 0,
    {
        let z = Fixed::zero();
        BacktestSummary {
            total_pnl: z,
            net_pnl: z,
            sharpe_ratio: z,
            sortino_ratio: z,
            win_rate: z,
            profit_factor: z,
            max_drawdown: z,
            max_drawdown_pct: z,
            total_trades: 0,
            avg_trade_duration_secs: 0,
            avg_edge: z,
        }
    }
}

/// Summary and the files the details go to.
#[derive(Clone, Debug)]
pub struct BacktestResult {
    pub summary: BacktestSummary,
    pub trades_path: String,
    pub equity_path: String,
}

impl BacktestResult {
    pub fn default() -> (r: BacktestResult)
        ensures
            r.summary.total_trades == 0,
            r.trades_path@ == "backtest_trades.parquet"@,
            r.equity_path@ == "equity_curve.parquet"@,
    {
        BacktestResult {
            summary: BacktestSummary::default(),
            trades_path: String::from_str("backtest_trades.parquet"),
            equity_path: String::from_str("equity_curve.parquet"),
        }
    }
}

} // verus!
