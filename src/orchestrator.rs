//! Decisions of the live loop: trading windows, the book each market is
//! judged on, the order a signal becomes, and run statistics.
use vstd::prelude::*;
use crate::execution::{Order, OrderType};
use crate::fixed::Fixed;
use crate::market::{secs_between, whole_secs, Market};
use crate::orderbook::{holds_token, token_at, OrderBook, OrderBookManager};
use crate::recorder::RecorderConfig;
use crate::signal::{Side, Signal};
use crate::risk::{sizer_size, Sizer};
use crate::signal_detector::{adjusted_edge_of, odds_of, MomentumSignalDetector};
use crate::lag::TradeSide;
use crate::lag::lag_decision;
use crate::momentum::{detect_post, MomentumSignal};
use crate::spread::instant_ok;

verus! {

/// Options of the `run` command.
#[derive(Clone, Copy, Debug)]
pub struct RunArgs {
    pub verbose: bool,
    /// Detect and log, but place no orders.
    pub dry_run: bool,
}

/// Options of the `capture` command.
#[derive(Clone, Debug)]
pub struct CaptureArgs {
    pub output: String,
    pub symbol: String,
    pub buffer_size: usize,
    pub flush_interval: u64,
    pub rotation_interval: u64,
    pub verbose: bool,
}

impl CaptureArgs {
    /// The recorder configuration these options ask for.
    pub fn recorder_config(&self) -> (r: RecorderConfig)
        ensures
            r.output_dir == self.output,
            r.buffer_size == self.buffer_size,
            r.flush_interval_secs == self.flush_interval,
            r.rotation_interval_secs == self.rotation_interval,
    {
        RecorderConfig {
            output_dir: self.output.clone(),
            rotation_interval_secs: self.rotation_interval,
            buffer_size: self.buffer_size,
            flush_interval_secs: self.flush_interval,
        }
    }
}

/// Counters of the live loop.
#[derive(Clone, Copy, Debug)]
pub struct TradingStats {
    pub ticks_processed: u64,
    pub signals_generated: u64,
    pub trades_executed: u64,
    pub current_positions: usize,
}

impl TradingStats {
    pub fn new() -> (r: TradingStats)
        ensures
            r.ticks_processed == 0 && r.signals_generated == 0 && r.trades_executed == 0 && r.current_positions == 0,
    {
        TradingStats { ticks_processed: 0, signals_generated: 0, trades_executed: 0, current_positions: 0 }
    }
}

/// What the live loop does with a signal.
#[derive(Clone, Debug)]
pub enum TradeAction {
    /// Log only (dry run).
    Skip,
    /// Submit this order.
    Submit(Order),
}

/// The live loop's trading state: counters, mode, policy and bankroll.
pub struct Trader {
    pub stats: TradingStats,
    pub dry_run: bool,
    pub sizer: Sizer,
    pub bankroll: Fixed,
}

impl Trader {
    pub open spec fn wf(&self) -> bool {
        self.sizer.wf() && self.bankroll.bounded()
    }

    pub fn new(args: RunArgs, sizer: Sizer, bankroll: Fixed) -> (r: Trader)
        ensures
            r.dry_run == args.dry_run,
            r.sizer == sizer,
            r.bankroll == bankroll,
            r.stats.ticks_processed == 0 && r.stats.signals_generated == 0 && r.stats.trades_executed == 0,
    {
        Trader { stats: TradingStats::new(), dry_run: args.dry_run, sizer, bankroll }
    }

    /// Count one processed tick.
    pub fn on_tick(&mut self)
        requires
            old(self).stats.ticks_processed < u64::MAX,
        ensures
            final(self).stats == (TradingStats { ticks_processed: (old(self).stats.ticks_processed + 1) as u64, ..old(self).stats }),
            final(self).dry_run == old(self).dry_run,
            final(self).sizer == old(self).sizer,
            final(self).bankroll == old(self).bankroll,
    {
        self.stats.ticks_processed = self.stats.ticks_processed + 1;
    }

    /// Count the signal; in a dry run do nothing more, otherwise size it
    /// (the signal's net edge as lag, its confidence) and make its order.
    pub fn on_signal(&mut self, signal: &Signal, market: &Market) -> (r: TradeAction)
        requires
            old(self).wf(),
            old(self).stats.signals_generated < u64::MAX,
            signal.adjusted_edge.bounded(),
            0 <= signal.confidence.v() <= crate::fixed::SCALE,
        ensures
            final(self).stats == (TradingStats { signals_generated: (old(self).stats.signals_generated + 1) as u64, ..old(self).stats }),
            final(self).dry_run == old(self).dry_run,
            final(self).sizer == old(self).sizer,
            final(self).bankroll == old(self).bankroll,
            old(self).dry_run ==> (r matches TradeAction::Skip),
            !old(self).dry_run ==> (r matches TradeAction::Submit(o) && o.side == signal.side && o.token_id == match signal.side {
                Side::Yes => market.yes_token_id,
                Side::No => market.no_token_id,
            } && o.price == signal.market_price && o.order_type == OrderType::Market && o.size.v() == sizer_size(
                old(self).sizer,
                signal.adjusted_edge.v(),
                signal.confidence.v(),
                old(self).bankroll.v(),
            )),
    {
        self.stats.signals_generated = self.stats.signals_generated + 1;
        if self.dry_run {
            return TradeAction::Skip;
        }
        let size = self.sizer.size_for(signal.adjusted_edge, signal.confidence, self.bankroll);
        TradeAction::Submit(order_for_signal(signal, market, size))
    }

    /// Count an order that was accepted.
    pub fn on_order_result(&mut self, accepted: bool)
        requires
            old(self).stats.trades_executed < u64::MAX,
        ensures
            final(self).stats == (TradingStats {
                trades_executed: if accepted { (old(self).stats.trades_executed + 1) as u64 } else { old(self).stats.trades_executed },
                ..old(self).stats
            }),
            final(self).dry_run == old(self).dry_run,
            final(self).sizer == old(self).sizer,
            final(self).bankroll == old(self).bankroll,
    {
        if accepted {
            self.stats.trades_executed = self.stats.trades_executed + 1;
        }
    }
}

/// The market may be traded at `now`: open long enough and not too close
/// to its close.
pub open spec fn in_window(market: Market, now: int, min_after_open: int, max_before_close: int) -> bool {
    whole_secs(market.open_time as int, now) >= min_after_open && whole_secs(now, market.close_time as int)
        >= max_before_close
}

pub fn in_trading_window(market: &Market, now: i64, min_seconds_after_open: u64, max_seconds_before_close: u64) -> (r: bool)
    requires
        instant_ok(now as int),
        instant_ok(market.open_time as int),
        instant_ok(market.close_time as int),
    ensures
        r == in_window(*market, now as int, min_seconds_after_open as int, max_seconds_before_close as int),
{
    let since_open = secs_between(market.open_time, now);
    let until_close = secs_between(now, market.close_time);
    since_open >= 0 && (since_open as u64) >= min_seconds_after_open && until_close >= 0 && (until_close as u64)
        >= max_seconds_before_close
}

/// The order a signal becomes: the signal's side and token, at its market
/// price, for `size`.
pub fn order_for_signal(signal: &Signal, market: &Market, size: Fixed) -> (r: Order)
    ensures
        r.side == signal.side,
        r.token_id == match signal.side {
            Side::Yes => market.yes_token_id,
            Side::No => market.no_token_id,
        },
        r.price == signal.market_price,
        r.size == size,
        r.order_type == OrderType::Market,
{
    let token_id = match signal.side {
        Side::Yes => market.yes_token_id.clone(),
        Side::No => market.no_token_id.clone(),
    };
    Order { token_id, side: signal.side, price: signal.market_price, size, order_type: OrderType::Market }
}

/// The book a market is judged on: the stored YES book, or an empty one.
pub fn book_or_empty(store: &OrderBookManager, token_id: &str, now: i64) -> (r: OrderBook)
    requires
        store.wf(),
    ensures
        r.wf(),
        holds_token(store.books(), token_id@) ==> exists|i: int| token_at(store.books(), token_id@, i) && r@ == store.books()[i]@,
        !holds_token(store.books(), token_id@) ==> r@.bids.len() == 0 && r@.asks.len() == 0 && r@.token == token_id@,
{
    match store.get(token_id) {
        Some(b) => b.duplicate(),
        None => OrderBook::new(token_id, now),
    }
}

/// `b` is the book a market's YES token is judged on: the stored one, or an
/// empty one when none is stored.
pub open spec fn judged_book(books: Seq<OrderBook>, token: Seq<char>, b: OrderBook) -> bool {
    &&& b.wf()
    &&& holds_token(books, token) ==> exists|i: int| token_at(books, token, i) && b@ == books[i]@
    &&& !holds_token(books, token) ==> b@.bids.len() == 0 && b@.asks.len() == 0
}

/// Judge one market at `now`: outside its trading window nothing happens;
/// inside, the signal detector runs on its YES book.
pub fn evaluate_market(
    detector: &mut MomentumSignalDetector,
    market: &Market,
    store: &OrderBookManager,
    now: i64,
    min_seconds_after_open: u64,
    max_seconds_before_close: u64,
) -> (r: Option<Signal>)
    requires
        old(detector).wf(),
        store.wf(),
        market.open_price.bounded(),
        instant_ok(now as int),
        instant_ok(market.open_time as int),
        instant_ok(market.close_time as int),
    ensures
        final(detector).wf(),
        final(detector).momentum_detector.prices == old(detector).momentum_detector.prices,
        final(detector).momentum_detector.config == old(detector).momentum_detector.config,
        !in_window(*market, now as int, min_seconds_after_open as int, max_seconds_before_close as int) ==> r.is_none()
            && *final(detector) == *old(detector),
        in_window(*market, now as int, min_seconds_after_open as int, max_seconds_before_close as int) ==> exists|b: OrderBook|
            {
                &&& #[trigger] judged_book(store.books(), market.yes_token_id@, b)
                &&& exists|ms: Option<MomentumSignal>|
                    {
                        &&& #[trigger] detect_post(old(detector).momentum_detector, market.open_price, final(detector).momentum_detector, ms)
                        &&& r.is_some() == (ms.is_some() && b.asks@.len() > 0 && lag_decision(
                            old(detector).lag_detector.config,
                            ms.unwrap(),
                            odds_of(b),
                            *market,
                            now as int,
                        ).is_ok())
                        &&& r.is_some() ==> {
                            let (side, lag, expected) = lag_decision(
                                old(detector).lag_detector.config,
                                ms.unwrap(),
                                odds_of(b),
                                *market,
                                now as int,
                            ).unwrap();
                            let s = r.unwrap();
                            &&& s.side == match side {
                                TradeSide::Yes => Side::Yes,
                                TradeSide::No => Side::No,
                            }
                            &&& s.fair_value.v() == expected
                            &&& s.market_price == b.asks@[0].price
                            &&& s.adjusted_edge.v() == adjusted_edge_of(
                                lag,
                                old(detector).fee_rate.v(),
                                old(detector).slippage_estimate.v(),
                            )
                            &&& s.market == *market
                            &&& s.timestamp == now
                        }
                    }
            },
{
    if !in_trading_window(market, now, min_seconds_after_open, max_seconds_before_close) {
        return None;
    }
    let book = book_or_empty(store, market.yes_token_id.as_str(), now);
    let r = detector.detect_at(market, &book, now);
    proof {
        assert(judged_book(store.books(), market.yes_token_id@, book));
    }
    r
}

} // verus!
