use vstd::prelude::*;
use vstd::relations::{sorted_by, total_ordering};

use crate::fixed::{floor_div, ONE};

verus! {

/// The default clip percentile of the vertical scale, in millionths: about two
/// standard deviations above the mean of a normal distribution.
pub const CLIP_PERCENTILE: u32 = 954_450;

/// One side of a snapshot, ready for placement: bucket `i` sits at price
/// `x[i]` and carries depth `y[i]`. Index 0 is the bucket nearest to the mid.
///
/// Prices are fixed-point numbers in millionths of the quote currency, depths
/// in millionths of the base asset.
#[derive(Debug)]
pub struct Plottable {
    pub x: Vec<i64>,
    pub y: Vec<u64>,
}

impl Plottable {
    /// Prices and depths are index-aligned.
    pub open spec fn wf(&self) -> bool {
        self.x@.len() == self.y@.len()
    }
}

/// Metrics derived from one snapshot; never changed once made.
#[derive(Clone, Copy, Debug, PartialEq, Eq)]
pub struct RowProperties {
    /// Span of visible depth: last ask price minus last bid price.
    pub width: i128,
    /// Clipped upper bound of the depths, at the configured percentile.
    pub height_bound: u64,
    /// Mean of the best bid and the best ask, rounded down.
    pub midprice: i64,
    /// Number of buckets over both sides.
    pub order_count: usize,
}

impl RowProperties {
    /// The width is a difference of two prices.
    pub open spec fn wf(self) -> bool {
        i64::MIN - i64::MAX <= self.width <= i64::MAX - i64::MIN
    }
}

/// The order in which depths are sorted.
pub open spec fn depth_order() -> spec_fn(u64, u64) -> bool {
    |a: u64, b: u64| a <= b
}

/// `s` in ascending order.
pub open spec fn ascending(s: Seq<u64>) -> Seq<u64> {
    s.sort_by(depth_order())
}

/// All depths of a snapshot, bids first.
pub open spec fn combined_depths(bids: Plottable, asks: Plottable) -> Seq<u64> {
    bids.y@ + asks.y@
}

/// Index of the clip value among `n` sorted depths: `floor(percentile * n)`,
/// clamped to the last index.
pub open spec fn clip_index(n: int, percentile: u32) -> int {
    let i = n * percentile / (ONE as int);
    if i < n {
        i
    } else {
        n - 1
    }
}

/// The depth at the clip percentile of `ys`.
pub open spec fn clipped_height(ys: Seq<u64>, percentile: u32) -> u64 {
    ascending(ys)[clip_index(ys.len() as int, percentile)]
}

/// What the row scaling calculation gives for a pair of sides: nothing when a
/// side is empty, else the metrics of the snapshot.
pub open spec fn row_of(bids: Plottable, asks: Plottable, percentile: u32) -> Option<RowProperties> {
    if bids.x@.len() == 0 || asks.x@.len() == 0 {
        None
    } else {
        Some(
            RowProperties {
                width: (asks.x@.last() - bids.x@.last()) as i128,
                height_bound: clipped_height(combined_depths(bids, asks), percentile),
                midprice: ((bids.x@[0] + asks.x@[0]) / 2) as i64,
                order_count: (bids.x@.len() + asks.x@.len()) as usize,
            },
        )
    }
}

pub proof fn lemma_depth_order_total()
    ensures
        total_ordering(depth_order()),
{
}

/// A sequence that is sorted and holds the elements of `s` is `ascending(s)`.
pub proof fn lemma_ascending_unique(s: Seq<u64>, t: Seq<u64>)
    requires
        sorted_by(t, depth_order()),
        t.to_multiset() == s.to_multiset(),
    ensures
        t == ascending(s),
{
    lemma_depth_order_total();
    s.lemma_sort_by_ensures(depth_order());
    vstd::seq_lib::lemma_sorted_unique(t, ascending(s), depth_order());
}

/// Relies on `slice::sort_unstable`: it puts the elements in ascending order,
/// keeping each of them.
#[verifier::external_body]
fn sort_depths(v: &mut Vec<u64>)
    ensures
        final(v)@.to_multiset() == old(v)@.to_multiset(),
        forall|i: int, j: int| 0 <= i < j < final(v)@.len() ==> final(v)@[i] <= final(v)@[j],
{
    v.sort_unstable();
}

/// Appends the depths of `src` to `dst`.
fn append_depths(dst: &mut Vec<u64>, src: &Vec<u64>)
    ensures
        final(dst)@ == old(dst)@ + src@,
{
    let mut i: usize = 0;
    while i < src.len()
        invariant
            0 <= i <= src@.len(),
            dst@ == old(dst)@ + src@.subrange(0, i as int),
        decreases src@.len() - i,
    {
        dst.push(src[i]);
        i = i + 1;
        assert(src@.subrange(0, i as int) == src@.subrange(0, i - 1).push(src@[i - 1]));
    }
    assert(src@.subrange(0, i as int) == src@);
}

/// Row scaling: the metrics of a snapshot from its two sides, or `None` when
/// either side is empty (there is then no midprice to place the row by).
///
/// The height bound is the depth at `percentile` (in millionths) of all depths
/// of both sides in ascending order, the index clamped to the last one.
pub fn row_properties(bids: &Plottable, asks: &Plottable, percentile: u32) -> (r: Option<RowProperties>)
    requires
        bids.wf(),
        asks.wf(),
    ensures
        r == row_of(*bids, *asks, percentile),
        r matches Some(p) ==> p.wf(),
        r is Some <==> bids.x@.len() > 0 && asks.x@.len() > 0,
        r matches Some(p) ==> {
            &&& p.midprice == (bids.x@[0] + asks.x@[0]) / 2
            &&& p.width == asks.x@.last() - bids.x@.last()
            &&& p.order_count == bids.x@.len() + asks.x@.len()
            &&& p.height_bound == clipped_height(combined_depths(*bids, *asks), percentile)
        },
{
    if bids.x.len() == 0 || asks.x.len() == 0 {
        return None;
    }
    let mut ys: Vec<u64> = Vec::new();
    append_depths(&mut ys, &bids.y);
    append_depths(&mut ys, &asks.y);
    let ghost depths = ys@;
    sort_depths(&mut ys);
    proof {
        lemma_ascending_unique(depths, ys@);
        vstd::seq_lib::to_multiset_len(depths);
        vstd::seq_lib::to_multiset_len(ys@);
    }
    let n: usize = ys.len();
    assert((n as u128) * (percentile as u128) <= u64::MAX as u128 * u32::MAX as u128) by (nonlinear_arith)
        requires
            n <= u64::MAX,
    ;
    let scaled: u128 = (n as u128) * (percentile as u128) / (ONE as u128);
    let idx: usize = if scaled < n as u128 {
        scaled as usize
    } else {
        n - 1
    };
    let height_bound: u64 = ys[idx];
    let last_bid: i64 = bids.x[bids.x.len() - 1];
    let last_ask: i64 = asks.x[asks.x.len() - 1];
    let mid: i128 = floor_div(bids.x[0] as i128 + asks.x[0] as i128, 2);
    Some(
        RowProperties {
            width: last_ask as i128 - last_bid as i128,
            height_bound,
            midprice: mid as i64,
            order_count: n,
        },
    )
}

/// The clipped height of a non-empty set of depths lies between their median
/// (the upper one, for an even count) and their maximum, for any clip
/// percentile of at least one half.
pub proof fn lemma_height_bound_between_median_and_max(ys: Seq<u64>, percentile: u32)
    requires
        ys.len() > 0,
        2 * percentile >= ONE,
    ensures
        ascending(ys).len() == ys.len(),
        ascending(ys)[ys.len() as int / 2] <= clipped_height(ys, percentile),
        clipped_height(ys, percentile) <= ascending(ys)[ys.len() - 1],
        ys.contains(ascending(ys)[ys.len() - 1]),
        forall|i: int| 0 <= i < ys.len() ==> ys[i] <= ascending(ys)[ys.len() - 1],
{
    broadcast use vstd::seq_lib::group_to_multiset_ensures;

    let n = ys.len() as int;
    let s = ascending(ys);
    lemma_depth_order_total();
    ys.lemma_sort_by_ensures(depth_order());
    assert(s.len() == n) by {
        vstd::seq_lib::to_multiset_len(ys);
        vstd::seq_lib::to_multiset_len(s);
    }
    let k = clip_index(n, percentile);
    assert(n / 2 <= n * percentile / (ONE as int)) by {
        assert(n * (ONE as int) <= 2 * (n * percentile)) by (nonlinear_arith)
            requires
                n >= 0,
                2 * percentile >= ONE,
        ;
        vstd::arithmetic::div_mod::lemma_div_is_ordered(n * (ONE as int) / 2, n * percentile, ONE as int);
    }
    assert(n / 2 <= k < n);
    if n / 2 < k {
        assert(depth_order()(s[n / 2], s[k]));
    }
    if k < n - 1 {
        assert(depth_order()(s[k], s[n - 1]));
    }
    assert(s.contains(s[n - 1]));
    assert forall|i: int| 0 <= i < n implies ys[i] <= s[n - 1] by {
        assert(ys.contains(ys[i]));
        assert(ys.to_multiset().contains(ys[i]));
        assert(s.to_multiset().contains(ys[i]));
        assert(s.contains(ys[i]));
        let j = choose|j: int| 0 <= j < n && s[j] == ys[i];
        if j < n - 1 {
            assert(depth_order()(s[j], s[n - 1]));
        }
    }
}

} // verus!
