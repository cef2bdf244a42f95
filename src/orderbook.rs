//! Per-token L2 order books and the book store.
use vstd::prelude::*;
use crate::fixed::{Fixed, BOUND};

verus! {

/// One aggregated price level.
#[derive(Clone, Copy, Debug, PartialEq, Eq, Structural)]
pub struct PriceLevel {
    /// Price at this level.
    pub price: Fixed,
    /// Total size available at this price.
    pub size: Fixed,
}

/// `a` is strictly better than `b` on a side ordered descending (bids) or
/// ascending (asks).
pub open spec fn better(desc: bool, a: int, b: int) -> bool {
    if desc {
        a > b
    } else {
        a < b
    }
}

/// Prices strictly monotone in the side's order.
pub open spec fn sorted_side(s: Seq<PriceLevel>, desc: bool) -> bool {
    forall|i: int, j: int|
        0 <= i < j < s.len() ==> better(desc, #[trigger] s[i].price.v(), #[trigger] s[j].price.v())
}

/// Every level has a positive size, and prices and sizes are bounded.
pub open spec fn valid_levels(s: Seq<PriceLevel>) -> bool {
    forall|i: int|
        0 <= i < s.len() ==> 0 < (#[trigger] s[i]).size.v() && s[i].size.bounded()
            && s[i].price.bounded()
}

/// The side holds a level at price `p` with size `z`.
pub open spec fn has_level(s: Seq<PriceLevel>, p: int, z: int) -> bool {
    exists|i: int| 0 <= i < s.len() && (#[trigger] s[i]).price.v() == p && s[i].size.v() == z
}

/// A level may enter a book: bounded price and size, size not negative
/// (zero meaning removal).
pub open spec fn level_ok(l: PriceLevel) -> bool {
    l.price.bounded() && l.size.bounded() && l.size.v() >= 0
}

/// Every level of the sequence may enter a book.
pub open spec fn levels_ok(s: Seq<PriceLevel>) -> bool {
    forall|i: int| 0 <= i < s.len() ==> level_ok(#[trigger] s[i])
}

/// Whether price `a` ranks strictly before price `b` on the side.
pub fn is_better(desc: bool, a: Fixed, b: Fixed) -> (r: bool)
    ensures
        r == better(desc, a.v(), b.v()),
{
    if desc {
        a.raw > b.raw
    } else {
        a.raw < b.raw
    }
}

/// A copy of a side.
pub fn copy_levels(v: &Vec<PriceLevel>) -> (r: Vec<PriceLevel>)
    ensures
        r@ == v@,
{
    let mut out: Vec<PriceLevel> = Vec::new();
    let mut i: usize = 0;
    while i < v.len()
        invariant
            0 <= i <= v@.len(),
            out@ == v@.subrange(0, i as int),
        decreases v@.len() - i,
    {
        out.push(v[i]);
        proof {
            assert(out@ =~= v@.subrange(0, i + 1));
        }
        i = i + 1;
    }
    proof {
        assert(v@.subrange(0, i as int) =~= v@);
    }
    out
}

/// Whether every level of a side may enter a book.
pub fn levels_admissible(v: &Vec<PriceLevel>) -> (r: bool)
    ensures
        r == levels_ok(v@),
{
    let mut i: usize = 0;
    while i < v.len()
        invariant
            0 <= i <= v@.len(),
            forall|k: int| 0 <= k < i ==> level_ok(#[trigger] v@[k]),
        decreases v@.len() - i,
    {
        let l = v[i];
        if !(-BOUND <= l.price.raw && l.price.raw <= BOUND && -BOUND <= l.size.raw && l.size.raw <= BOUND && l.size.raw >= 0) {
            return false;
        }
        i = i + 1;
    }
    true
}

/// Set one level of a well-formed side: replace the size at that price, remove
/// the level when the new size is zero, or insert it in price order.
pub fn upsert_level(levels: &mut Vec<PriceLevel>, lvl: PriceLevel, desc: bool)
    requires
        sorted_side(old(levels)@, desc),
        valid_levels(old(levels)@),
        level_ok(lvl),
    ensures
        sorted_side(final(levels)@, desc),
        valid_levels(final(levels)@),
        forall|p: int, z: int|
            has_level(final(levels)@, p, z) <==> (if p == lvl.price.v() {
                z == lvl.size.v() && z > 0
            } else {
                has_level(old(levels)@, p, z)
            }),
{
    let ghost s0 = levels@;
    let mut i: usize = 0;
    while i < levels.len() && is_better(desc, levels[i].price, lvl.price)
        invariant
            levels@ == s0,
            0 <= i <= s0.len(),
            forall|k: int| 0 <= k < i ==> better(desc, #[trigger] s0[k].price.v(), lvl.price.v()),
        decreases s0.len() - i,
    {
        i = i + 1;
    }
    if i < levels.len() && levels[i].price.raw == lvl.price.raw {
        if lvl.size.raw > 0 {
            levels.set(i, lvl);
            proof {
                let s1 = levels@;
                assert forall|p: int, z: int|
                    has_level(s1, p, z) <==> (if p == lvl.price.v() {
                        z == lvl.size.v() && z > 0
                    } else {
                        has_level(s0, p, z)
                    }) by {
                    if has_level(s1, p, z) {
                        let k = choose|k: int|
                            0 <= k < s1.len() && (#[trigger] s1[k]).price.v() == p && s1[k].size.v() == z;
                        if k != i {
                            assert(s0[k] == s1[k]);
                        }
                    }
                    if p != lvl.price.v() && has_level(s0, p, z) {
                        let k = choose|k: int|
                            0 <= k < s0.len() && (#[trigger] s0[k]).price.v() == p && s0[k].size.v() == z;
                        assert(s1[k] == s0[k]);
                    }
                    if p == lvl.price.v() && z == lvl.size.v() {
                        assert(s1[i as int] == lvl);
                    }
                }
            }
        } else {
            levels.remove(i);
            proof {
                let s1 = levels@;
                assert(s1 =~= s0.remove(i as int));
                assert forall|p: int, z: int|
                    has_level(s1, p, z) <==> (if p == lvl.price.v() {
                        z == lvl.size.v() && z > 0
                    } else {
                        has_level(s0, p, z)
                    }) by {
                    if has_level(s1, p, z) {
                        let k = choose|k: int|
                            0 <= k < s1.len() && (#[trigger] s1[k]).price.v() == p && s1[k].size.v() == z;
                        if k < i {
                            assert(s1[k] == s0[k]);
                        } else {
                            assert(s1[k] == s0[k + 1]);
                        }
                    }
                    if p != lvl.price.v() && has_level(s0, p, z) {
                        let k = choose|k: int|
                            0 <= k < s0.len() && (#[trigger] s0[k]).price.v() == p && s0[k].size.v() == z;
                        if k < i {
                            assert(s1[k] == s0[k]);
                        } else {
                            assert(k != i);
                            assert(s1[k - 1] == s0[k]);
                        }
                    }
                }
            }
        }
    } else if lvl.size.raw > 0 {
        levels.insert(i, lvl);
        proof {
            let s1 = levels@;
            assert(s1 =~= s0.insert(i as int, lvl));
            assert forall|a: int, b: int|
                0 <= a < b < s1.len() implies better(desc, #[trigger] s1[a].price.v(), #[trigger] s1[b].price.v()) by {
                if b < i {
                } else if a > i {
                    assert(s1[a] == s0[a - 1]);
                    assert(s1[b] == s0[b - 1]);
                } else if a == i {
                    assert(s1[b] == s0[b - 1]);
                    assert(!better(desc, s0[i as int].price.v(), lvl.price.v()));
                    if b - 1 > i {
                        assert(better(desc, s0[i as int].price.v(), s0[b - 1].price.v()));
                    }
                } else {
                    assert(s1[a] == s0[a]);
                    if b == i {
                    } else {
                        assert(s1[b] == s0[b - 1]);
                    }
                }
            }
            assert forall|p: int, z: int|
                has_level(s1, p, z) <==> (if p == lvl.price.v() {
                    z == lvl.size.v() && z > 0
                } else {
                    has_level(s0, p, z)
                }) by {
                if has_level(s1, p, z) {
                    let k = choose|k: int|
                        0 <= k < s1.len() && (#[trigger] s1[k]).price.v() == p && s1[k].size.v() == z;
                    if k < i {
                        assert(s1[k] == s0[k]);
                    } else if k > i {
                        assert(s1[k] == s0[k - 1]);
                    }
                }
                if has_level(s0, p, z) {
                    let k = choose|k: int|
                        0 <= k < s0.len() && (#[trigger] s0[k]).price.v() == p && s0[k].size.v() == z;
                    if k < i {
                        assert(s1[k] == s0[k]);
                    } else {
                        assert(s1[k + 1] == s0[k]);
                    }
                    if p == lvl.price.v() {
                        if k < i {
                            assert(better(desc, s0[k].price.v(), lvl.price.v()));
                        } else if k > i {
                            assert(better(desc, s0[i as int].price.v(), s0[k].price.v()));
                        }
                    }
                }
                if p == lvl.price.v() && z == lvl.size.v() {
                    assert(s1[i as int] == lvl);
                }
            }
        }
    } else {
        proof {
            assert forall|p: int, z: int|
                has_level(s0, p, z) implies p != lvl.price.v() by {
                let k = choose|k: int|
                    0 <= k < s0.len() && (#[trigger] s0[k]).price.v() == p && s0[k].size.v() == z;
                if k < i {
                    assert(better(desc, s0[k].price.v(), lvl.price.v()));
                } else if k > i {
                    assert(better(desc, s0[i as int].price.v(), s0[k].price.v()));
                }
            }
        }
    }
}


/// The size that the last update at price `p` in `ups` sets, if any.
pub open spec fn last_update(ups: Seq<PriceLevel>, p: int) -> Option<int>
    decreases ups.len(),
{
    if ups.len() == 0 {
        None
    } else if ups.last().price.v() == p {
        Some(ups.last().size.v())
    } else {
        last_update(ups.drop_last(), p)
    }
}

/// After applying `ups` in order to side `base`, the side holds a level at
/// price `p` of size `z`.
pub open spec fn merged_has(base: Seq<PriceLevel>, ups: Seq<PriceLevel>, p: int, z: int) -> bool {
    match last_update(ups, p) {
        Some(sz) => z == sz && sz > 0,
        None => has_level(base, p, z),
    }
}

/// `result` is the well-formed side obtained by applying `ups` to `base`.
pub open spec fn side_post(base: Seq<PriceLevel>, ups: Seq<PriceLevel>, desc: bool, result: Seq<PriceLevel>) -> bool {
    &&& sorted_side(result, desc)
    &&& valid_levels(result)
    &&& forall|p: int, z: int| has_level(result, p, z) <==> merged_has(base, ups, p, z)
}

/// Apply a batch of level updates, in order, to a well-formed side.
pub fn merge_side(levels: &mut Vec<PriceLevel>, ups: &Vec<PriceLevel>, desc: bool)
    requires
        sorted_side(old(levels)@, desc),
        valid_levels(old(levels)@),
        levels_ok(ups@),
    ensures
        side_post(old(levels)@, ups@, desc, final(levels)@),
{
    let ghost s0 = levels@;
    let mut k: usize = 0;
    while k < ups.len()
        invariant
            0 <= k <= ups@.len(),
            levels_ok(ups@),
            side_post(s0, ups@.subrange(0, k as int), desc, levels@),
        decreases ups@.len() - k,
    {
        let ghost prev = levels@;
        let lvl = ups[k];
        upsert_level(levels, lvl, desc);
        proof {
            let pre = ups@.subrange(0, k as int);
            let cur = ups@.subrange(0, k + 1);
            assert(cur.drop_last() =~= pre);
            assert(cur.last() == lvl);
            assert forall|p: int, z: int|
                has_level(levels@, p, z) <==> merged_has(s0, cur, p, z) by {
                assert(has_level(prev, p, z) <==> merged_has(s0, pre, p, z));
            }
        }
        k = k + 1;
    }
    proof {
        assert(ups@.subrange(0, ups@.len() as int) =~= ups@);
    }
}

/// Two strictly ordered sides with the same levels are the same sequence.
pub proof fn lemma_side_unique(s1: Seq<PriceLevel>, s2: Seq<PriceLevel>, desc: bool)
    requires
        sorted_side(s1, desc),
        sorted_side(s2, desc),
        forall|p: int, z: int| has_level(s1, p, z) <==> has_level(s2, p, z),
    ensures
        s1 == s2,
    decreases s1.len() + s2.len(),
{
    if s1.len() == 0 {
        if s2.len() > 0 {
            assert(has_level(s2, s2[0].price.v(), s2[0].size.v()));
        }
        assert(s1 =~= s2);
    } else if s2.len() == 0 {
        assert(has_level(s1, s1[0].price.v(), s1[0].size.v()));
    } else {
        let a = s1[0];
        let b = s2[0];
        assert(has_level(s1, a.price.v(), a.size.v()));
        assert(has_level(s2, b.price.v(), b.size.v()));
        let i = choose|i: int| 0 <= i < s2.len() && (#[trigger] s2[i]).price.v() == a.price.v() && s2[i].size.v() == a.size.v();
        let j = choose|j: int| 0 <= j < s1.len() && (#[trigger] s1[j]).price.v() == b.price.v() && s1[j].size.v() == b.size.v();
        if i > 0 {
            assert(better(desc, s2[0].price.v(), s2[i].price.v()));
        }
        if j > 0 {
            assert(better(desc, s1[0].price.v(), s1[j].price.v()));
        }
        if i > 0 && j > 0 {
            assert(false);
        }
        assert(a == b);
        let t1 = s1.drop_first();
        let t2 = s2.drop_first();
        assert forall|p: int, z: int| has_level(t1, p, z) <==> has_level(t2, p, z) by {
            if has_level(t1, p, z) {
                let x = choose|x: int| 0 <= x < t1.len() && (#[trigger] t1[x]).price.v() == p && t1[x].size.v() == z;
                assert(s1[x + 1] == t1[x]);
                assert(has_level(s1, p, z));
                let y = choose|y: int| 0 <= y < s2.len() && (#[trigger] s2[y]).price.v() == p && s2[y].size.v() == z;
                assert(better(desc, s1[0].price.v(), s1[x + 1].price.v()));
                if y == 0 {
                    assert(false);
                }
                assert(t2[y - 1] == s2[y]);
            }
            if has_level(t2, p, z) {
                let x = choose|x: int| 0 <= x < t2.len() && (#[trigger] t2[x]).price.v() == p && t2[x].size.v() == z;
                assert(s2[x + 1] == t2[x]);
                assert(has_level(s2, p, z));
                let y = choose|y: int| 0 <= y < s1.len() && (#[trigger] s1[y]).price.v() == p && s1[y].size.v() == z;
                assert(better(desc, s2[0].price.v(), s2[x + 1].price.v()));
                if y == 0 {
                    assert(false);
                }
                assert(t1[y - 1] == s1[y]);
            }
        }
        assert forall|x: int, y: int| 0 <= x < y < t1.len() implies better(desc, #[trigger] t1[x].price.v(), #[trigger] t1[y].price.v()) by {
            assert(t1[x] == s1[x + 1]);
            assert(t1[y] == s1[y + 1]);
        }
        assert forall|x: int, y: int| 0 <= x < y < t2.len() implies better(desc, #[trigger] t2[x].price.v(), #[trigger] t2[y].price.v()) by {
            assert(t2[x] == s2[x + 1]);
            assert(t2[y] == s2[y + 1]);
        }
        lemma_side_unique(t1, t2, desc);
        assert(s1 =~= seq![a] + t1);
        assert(s2 =~= seq![b] + t2);
    }
}


/// An L2 order book for one token.
#[derive(Clone, Debug)]
pub struct OrderBook {
    /// Token identifier.
    pub token_id: String,
    /// Bid levels, best (highest) first.
    pub bids: Vec<PriceLevel>,
    /// Ask levels, best (lowest) first.
    pub asks: Vec<PriceLevel>,
    /// Last update instant, in microseconds since the epoch.
    pub updated_at: i64,
}

/// Mathematical model of an order book.
pub struct BookView {
    pub token: Seq<char>,
    pub bids: Seq<PriceLevel>,
    pub asks: Seq<PriceLevel>,
    pub updated_at: int,
}

impl View for OrderBook {
    type V = BookView;

    open spec fn view(&self) -> BookView {
        BookView {
            token: self.token_id@,
            bids: self.bids@,
            asks: self.asks@,
            updated_at: self.updated_at as int,
        }
    }
}

/// Both sides are populated and the best bid is not below the best ask.
pub open spec fn crossed(b: BookView) -> bool {
    b.bids.len() > 0 && b.asks.len() > 0 && b.bids[0].price.v() >= b.asks[0].price.v()
}

/// Bids strictly descend, asks strictly ascend, all sizes are positive, and
/// when both sides are populated the best bid is below the best ask.
pub open spec fn book_wf(b: BookView) -> bool {
    &&& sorted_side(b.bids, true)
    &&& sorted_side(b.asks, false)
    &&& valid_levels(b.bids)
    &&& valid_levels(b.asks)
    &&& !crossed(b)
}

/// An incoming update may be applied: all its levels are admissible.
pub open spec fn update_ok(x: BookView) -> bool {
    levels_ok(x.bids) && levels_ok(x.asks)
}

/// An update deep enough on either side is a full snapshot.
pub open spec fn is_snapshot(x: BookView) -> bool {
    x.bids.len() > SNAPSHOT_DEPTH || x.asks.len() > SNAPSHOT_DEPTH
}

/// Depth above which an update replaces the book instead of merging.
pub const SNAPSHOT_DEPTH: usize = 5;

/// `b1` is book `b0` after update `x`: a snapshot replaces both sides, any
/// other update merges level by level; the time advances to the update's.
pub open spec fn apply_post(b0: BookView, x: BookView, b1: BookView) -> bool {
    update_post(b0, x, b1, is_snapshot(x))
}

/// `b1` is book `b0` after update `x`: the candidate book that replacing or
/// merging gives, unless that candidate is crossed, in which case the update
/// is refused and the book stays as it was.
pub open spec fn update_post(b0: BookView, x: BookView, b1: BookView, replace: bool) -> bool {
    exists|c: BookView| #[trigger] merge_post(b0, x, c, replace) && if crossed(c) { b1 == b0 } else { b1 == c }
}

/// `b1` is book `b0` after `x` replaced both sides (`replace`) or was merged
/// into them level by level; the time advances to the update's.
pub open spec fn merge_post(b0: BookView, x: BookView, b1: BookView, replace: bool) -> bool {
    let base_bids = if replace { Seq::<PriceLevel>::empty() } else { b0.bids };
    let base_asks = if replace { Seq::<PriceLevel>::empty() } else { b0.asks };
    &&& b1.token == b0.token
    &&& side_post(base_bids, x.bids, true, b1.bids)
    &&& side_post(base_asks, x.asks, false, b1.asks)
    &&& b1.updated_at == x.updated_at
}

/// Midpoint of two prices, truncated toward zero.
pub open spec fn mid_of(bid: int, ask: int) -> int {
    crate::fixed::tdiv(bid + ask, 2)
}

impl OrderBook {
    pub open spec fn wf(&self) -> bool {
        book_wf(self@)
    }

    /// An empty book for `token_id`, stamped `updated_at`.
    pub fn new(token_id: &str, updated_at: i64) -> (r: OrderBook)
        ensures
            r@.token == token_id@,
            r@.bids.len() == 0,
            r@.asks.len() == 0,
            r.updated_at == updated_at,
            r.wf(),
    {
        OrderBook { token_id: token_id.to_owned(), bids: Vec::new(), asks: Vec::new(), updated_at }
    }

    /// An identical copy.
    pub fn duplicate(&self) -> (r: OrderBook)
        ensures
            r@ == self@,
            r.token_id == self.token_id,
    {
        OrderBook {
            token_id: self.token_id.clone(),
            bids: copy_levels(&self.bids),
            asks: copy_levels(&self.asks),
            updated_at: self.updated_at,
        }
    }

    /// Whether every level may enter a book (bounded, size not negative).
    pub fn is_applicable(&self) -> (r: bool)
        ensures
            r == update_ok(self@),
    {
        levels_admissible(&self.bids) && levels_admissible(&self.asks)
    }

    pub fn best_bid(&self) -> (r: Option<Fixed>)
        ensures
            r == if self.bids@.len() > 0 { Some(self.bids@[0].price) } else { None::<Fixed> },
    {
        if self.bids.len() > 0 {
            Some(self.bids[0].price)
        } else {
            None
        }
    }

    pub fn best_ask(&self) -> (r: Option<Fixed>)
        ensures
            r == if self.asks@.len() > 0 { Some(self.asks@[0].price) } else { None::<Fixed> },
    {
        if self.asks.len() > 0 {
            Some(self.asks[0].price)
        } else {
            None
        }
    }

    pub fn best_bid_size(&self) -> (r: Option<Fixed>)
        ensures
            r == if self.bids@.len() > 0 { Some(self.bids@[0].size) } else { None::<Fixed> },
    {
        if self.bids.len() > 0 {
            Some(self.bids[0].size)
        } else {
            None
        }
    }

    pub fn best_ask_size(&self) -> (r: Option<Fixed>)
        ensures
            r == if self.asks@.len() > 0 { Some(self.asks@[0].size) } else { None::<Fixed> },
    {
        if self.asks.len() > 0 {
            Some(self.asks[0].size)
        } else {
            None
        }
    }

    /// Mid price `(bid + ask) / 2`, absent when either side is empty.
    pub fn mid_price(&self) -> (r: Option<Fixed>)
        requires
            self.wf(),
        ensures
            r.is_some() == (self.bids@.len() > 0 && self.asks@.len() > 0),
            r.is_some() ==> r.unwrap().v() == mid_of(self.bids@[0].price.v(), self.asks@[0].price.v()),
    {
        if self.bids.len() > 0 && self.asks.len() > 0 {
            let s: i64 = self.bids[0].price.raw + self.asks[0].price.raw;
            let m: i64 = if s >= 0 {
                s / 2
            } else {
                -((-s) / 2)
            };
            Some(Fixed { raw: m })
        } else {
            None
        }
    }

    /// Spread `ask − bid`, absent when either side is empty.
    pub fn spread(&self) -> (r: Option<Fixed>)
        requires
            self.wf(),
        ensures
            r.is_some() == (self.bids@.len() > 0 && self.asks@.len() > 0),
            r.is_some() ==> r.unwrap().v() == self.asks@[0].price.v() - self.bids@[0].price.v(),
    {
        if self.bids.len() > 0 && self.asks.len() > 0 {
            Some(self.asks[0].price.sub(self.bids[0].price))
        } else {
            None
        }
    }

    /// Apply an incoming update: replace both sides when it is a snapshot,
    /// else merge it level by level; levels of size zero are removed. An
    /// update that would leave the book crossed is refused.
    pub fn apply_update(&mut self, x: &OrderBook)
        requires
            old(self).wf(),
            update_ok(x@),
        ensures
            final(self).wf(),
            apply_post(old(self)@, x@, final(self)@),
    {
        let replace = x.bids.len() > SNAPSHOT_DEPTH || x.asks.len() > SNAPSHOT_DEPTH;
        self.update_with(x, replace)
    }

    /// Replace both sides by `x` (`replace`), or merge `x` into them level
    /// by level; levels of size zero are removed. When the result would be
    /// crossed (best bid at or above best ask) the book is left unchanged:
    /// this refusal is no part of the replace-or-merge rule itself, it is
    /// what keeps the book's invariant that the best bid stays below the
    /// best ask.
    pub fn update_with(&mut self, x: &OrderBook, replace: bool)
        requires
            old(self).wf(),
            update_ok(x@),
        ensures
            final(self).wf(),
            update_post(old(self)@, x@, final(self)@, replace),
    {
        let mut bids = if replace {
            Vec::new()
        } else {
            copy_levels(&self.bids)
        };
        let mut asks = if replace {
            Vec::new()
        } else {
            copy_levels(&self.asks)
        };
        merge_side(&mut bids, &x.bids, true);
        merge_side(&mut asks, &x.asks, false);
        let ghost c = BookView { token: self.token_id@, bids: bids@, asks: asks@, updated_at: x.updated_at as int };
        let is_crossed = bids.len() > 0 && asks.len() > 0 && bids[0].price.raw >= asks[0].price.raw;
        if !is_crossed {
            self.bids = bids;
            self.asks = asks;
            self.updated_at = x.updated_at;
        }
        proof {
            assert(merge_post(old(self)@, x@, c, replace));
        }
    }
}

/// Applying the same snapshot twice leaves the book as one application did.
pub proof fn lemma_snapshot_idempotent(b0: BookView, x: BookView, b1: BookView, b2: BookView)
    requires
        is_snapshot(x),
        apply_post(b0, x, b1),
        apply_post(b1, x, b2),
    ensures
        b2 == b1,
{
    lemma_replace_twice(b0, x, b1, b2);
}

/// Replacing a book by the same update twice gives what one replacement gave.
pub proof fn lemma_replace_twice(b0: BookView, x: BookView, b1: BookView, b2: BookView)
    requires
        update_post(b0, x, b1, true),
        update_post(b1, x, b2, true),
    ensures
        b2 == b1,
{
    let c1 = choose|c: BookView| #[trigger] merge_post(b0, x, c, true) && if crossed(c) { b1 == b0 } else { b1 == c };
    let c2 = choose|c: BookView| #[trigger] merge_post(b1, x, c, true) && if crossed(c) { b2 == b1 } else { b2 == c };
    lemma_side_unique(c1.bids, c2.bids, true);
    lemma_side_unique(c1.asks, c2.asks, false);
    assert(c1 == c2);
}


/// Book `i` of the sequence belongs to token `t`.
pub open spec fn token_at(s: Seq<OrderBook>, t: Seq<char>, i: int) -> bool {
    0 <= i < s.len() && s[i].token_id@ == t
}

/// The store holds a book for token `t`.
pub open spec fn holds_token(s: Seq<OrderBook>, t: Seq<char>) -> bool {
    exists|i: int| token_at(s, t, i)
}

/// An empty book view for token `t`.
pub open spec fn empty_book(t: Seq<char>) -> BookView {
    BookView { token: t, bids: Seq::empty(), asks: Seq::empty(), updated_at: 0 }
}

/// The book store: one book per token.
pub struct OrderBookManager {
    pub books: Vec<OrderBook>,
}

impl OrderBookManager {
    /// The books held, in order of first appearance.
    pub open spec fn books(&self) -> Seq<OrderBook> {
        self.books@
    }

    /// Every book is well formed and no token has two books.
    pub open spec fn wf(&self) -> bool {
        &&& forall|i: int| 0 <= i < self.books@.len() ==> (#[trigger] self.books@[i]).wf()
        &&& forall|i: int, j: int|
            0 <= i < j < self.books@.len() ==> (#[trigger] self.books@[i]).token_id@ != (#[trigger] self.books@[j]).token_id@
    }

    pub fn new() -> (r: OrderBookManager)
        ensures
            r.wf(),
            r.books().len() == 0,
    {
        OrderBookManager { books: Vec::new() }
    }

    /// Position of the book for `token_id`, if any.
    fn find(&self, token_id: &String) -> (r: Option<usize>)
        ensures
            match r {
                Some(i) => token_at(self.books@, token_id@, i as int),
                None => !holds_token(self.books@, token_id@),
            },
    {
        let mut i: usize = 0;
        while i < self.books.len()
            invariant
                0 <= i <= self.books@.len(),
                forall|k: int| 0 <= k < i ==> !token_at(self.books@, token_id@, k),
            decreases self.books@.len() - i,
        {
            if self.books[i].token_id == *token_id {
                return Some(i);
            }
            i = i + 1;
        }
        None
    }

    /// Apply an update: a snapshot replaces the token's book, anything else
    /// merges into it; a token seen for the first time starts from an empty
    /// book. An update that would cross the book is refused, to keep the
    /// invariant that the best bid stays below the best ask; the replace or
    /// merge rule alone would admit it.
    pub fn update(&mut self, book: OrderBook)
        requires
            old(self).wf(),
            update_ok(book@),
        ensures
            final(self).wf(),
            match_update(old(self).books(), book@, final(self).books(), is_snapshot(book@)),
    {
        let replace = book.bids.len() > SNAPSHOT_DEPTH || book.asks.len() > SNAPSHOT_DEPTH;
        self.store(book, replace)
    }

    /// Merge an update level by level into the token's book, whatever its
    /// depth.
    pub fn merge_update(&mut self, update: OrderBook)
        requires
            old(self).wf(),
            update_ok(update@),
        ensures
            final(self).wf(),
            match_update(old(self).books(), update@, final(self).books(), false),
    {
        self.store(update, false)
    }

    fn store(&mut self, update: OrderBook, replace: bool)
        requires
            old(self).wf(),
            update_ok(update@),
        ensures
            final(self).wf(),
            match_update(old(self).books(), update@, final(self).books(), replace),
    {
        match self.find(&update.token_id) {
            Some(i) => {
                self.books[i].update_with(&update, replace);
                proof {
                    assert forall|a: int, b: int|
                        0 <= a < b < self.books@.len() implies (#[trigger] self.books@[a]).token_id@ != (#[trigger] self.books@[b]).token_id@ by {
                        assert(old(self).books@[a].token_id@ != old(self).books@[b].token_id@);
                    }
                }
            },
            None => {
                let mut fresh = OrderBook::new(update.token_id.as_str(), 0);
                proof {
                    assert(fresh@.bids =~= Seq::<PriceLevel>::empty());
                    assert(fresh@.asks =~= Seq::<PriceLevel>::empty());
                    assert(fresh@ == empty_book(update@.token));
                }
                fresh.update_with(&update, replace);
                self.books.push(fresh);
                proof {
                    let n = old(self).books@.len() as int;
                    assert forall|a: int, b: int|
                        0 <= a < b < self.books@.len() implies (#[trigger] self.books@[a]).token_id@ != (#[trigger] self.books@[b]).token_id@ by {
                        if b == n {
                            assert(!token_at(old(self).books@, update@.token, a));
                        } else {
                            assert(old(self).books@[a].token_id@ != old(self).books@[b].token_id@);
                        }
                    }
                    assert(self.books@[n].wf());
                }
            },
        }
    }

    /// The book for `token_id`, if any.
    pub fn get(&self, token_id: &str) -> (r: Option<&OrderBook>)
        ensures
            r.is_some() == holds_token(self.books(), token_id@),
            r.is_some() ==> exists|i: int| token_at(self.books(), token_id@, i) && self.books()[i] == *r.unwrap(),
    {
        let t = token_id.to_owned();
        match self.find(&t) {
            Some(i) => Some(&self.books[i]),
            None => None,
        }
    }

    /// Best ask on the YES token's book.
    pub fn best_yes_price(&self, yes_token_id: &str) -> (r: Option<Fixed>)
        requires
            self.wf(),
        ensures
            r.is_some() ==> exists|i: int|
                token_at(self.books(), yes_token_id@, i) && self.books()[i].asks@.len() > 0
                    && r.unwrap() == self.books()[i].asks@[0].price,
            r.is_none() ==> forall|i: int| token_at(self.books(), yes_token_id@, i) ==> self.books()[i].asks@.len() == 0,
    {
        match self.get(yes_token_id) {
            Some(b) => b.best_ask(),
            None => None,
        }
    }

    /// Best ask on the NO token's book.
    pub fn best_no_price(&self, no_token_id: &str) -> (r: Option<Fixed>)
        requires
            self.wf(),
        ensures
            r.is_some() ==> exists|i: int|
                token_at(self.books(), no_token_id@, i) && self.books()[i].asks@.len() > 0
                    && r.unwrap() == self.books()[i].asks@[0].price,
            r.is_none() ==> forall|i: int| token_at(self.books(), no_token_id@, i) ==> self.books()[i].asks@.len() == 0,
    {
        match self.get(no_token_id) {
            Some(b) => b.best_ask(),
            None => None,
        }
    }

    pub fn has_token(&self, token_id: &str) -> (r: bool)
        ensures
            r == holds_token(self.books(), token_id@),
    {
        self.get(token_id).is_some()
    }

    pub fn len(&self) -> (r: usize)
        ensures
            r == self.books().len(),
    {
        self.books.len()
    }

    pub fn is_empty(&self) -> (r: bool)
        ensures
            r == (self.books().len() == 0),
    {
        self.books.len() == 0
    }

    pub fn clear(&mut self)
        ensures
            final(self).wf(),
            final(self).books().len() == 0,
    {
        self.books.clear();
    }
}

/// `after` is the store `before` once update `x` is applied: the token's book
/// (or an empty one, for a new token) takes the update, other books stay.
pub open spec fn match_update(before: Seq<OrderBook>, x: BookView, after: Seq<OrderBook>, replace: bool) -> bool {
    if holds_token(before, x.token) {
        &&& after.len() == before.len()
        &&& forall|i: int| #[trigger] token_at(before, x.token, i) ==> update_post(before[i]@, x, after[i]@, replace)
        &&& forall|i: int| 0 <= i < before.len() && !token_at(before, x.token, i) ==> after[i] == before[i]
    } else {
        &&& after.len() == before.len() + 1
        &&& forall|i: int| 0 <= i < before.len() ==> after[i] == before[i]
        &&& update_post(empty_book(x.token), x, after[before.len() as int]@, replace)
    }
}

/// Applying the same snapshot to the store twice leaves every book as one
/// application did.
pub proof fn lemma_store_snapshot_idempotent(s0: Seq<OrderBook>, x: BookView, s1: Seq<OrderBook>, s2: Seq<OrderBook>)
    requires
        is_snapshot(x),
        match_update(s0, x, s1, true),
        match_update(s1, x, s2, true),
    ensures
        s2.len() == s1.len(),
        forall|i: int| 0 <= i < s1.len() ==> (#[trigger] s2[i])@ == s1[i]@,
{
    if holds_token(s0, x.token) {
        let i = choose|i: int| token_at(s0, x.token, i);
        assert(update_post(s0[i]@, x, s1[i]@, true));
        assert(token_at(s1, x.token, i));
    } else {
        assert(token_at(s1, x.token, s0.len() as int));
    }
    assert(holds_token(s1, x.token));
    assert forall|i: int| 0 <= i < s1.len() implies (#[trigger] s2[i])@ == s1[i]@ by {
        if token_at(s1, x.token, i) {
            assert(update_post(s1[i]@, x, s2[i]@, true));
            if i < s0.len() {
                if !token_at(s0, x.token, i) {
                    assert(s1[i] == s0[i]);
                }
                assert(update_post(s0[i]@, x, s1[i]@, true));
            } else {
                assert(update_post(empty_book(x.token), x, s1[i]@, true));
            }
            if i < s0.len() {
                lemma_replace_twice(s0[i]@, x, s1[i]@, s2[i]@);
            } else {
                lemma_replace_twice(empty_book(x.token), x, s1[i]@, s2[i]@);
            }
        }
    }
}

/// After any update of a well-formed store, every book still has strictly
/// descending bids, strictly ascending asks, positive sizes, and a best bid
/// below its best ask.
pub proof fn lemma_store_update_keeps_books_ordered(before: OrderBookManager, x: BookView, after: Seq<OrderBook>, replace: bool)
    requires
        before.wf(),
        update_ok(x),
        match_update(before.books(), x, after, replace),
    ensures
        forall|i: int| 0 <= i < after.len() ==> book_wf((#[trigger] after[i])@),
{
    let b = before.books();
    assert forall|i: int| 0 <= i < after.len() implies book_wf((#[trigger] after[i])@) by {
        if i < b.len() && token_at(b, x.token, i) {
            assert(b[i].wf());
            lemma_update_keeps_wf(b[i]@, x, after[i]@, replace);
        } else if i < b.len() {
            if holds_token(b, x.token) {
                assert(after[i] == b[i]);
            } else {
                assert(after[i] == b[i]);
            }
            assert(b[i].wf());
        } else {
            assert(!holds_token(b, x.token));
            assert(i == b.len());
            lemma_update_keeps_wf(empty_book(x.token), x, after[i]@, replace);
        }
    }
}

/// One update of a well-formed book leaves it well formed.
pub proof fn lemma_update_keeps_wf(b0: BookView, x: BookView, b1: BookView, replace: bool)
    requires
        book_wf(b0),
        update_post(b0, x, b1, replace),
    ensures
        book_wf(b1),
{
    let c = choose|c: BookView| #[trigger] merge_post(b0, x, c, replace) && if crossed(c) { b1 == b0 } else { b1 == c };
}

} // verus!
