use vstd::prelude::*;
use vstd::arithmetic::div_mod::{lemma_div_is_ordered, lemma_fundamental_div_mod};

use crate::fixed::ONE;
use crate::row::RowProperties;

verus! {

/// The default visual-separation factor of buckets, in millionths (one half).
pub const SEPARATION: u32 = 500_000;

/// Width of one bucket's bar before horizontal scaling, for tick size `t`,
/// `ln_n` the natural logarithm of the order count and separation `k`:
/// `t * ln_n / (ln_n + 1) * k`, rounded down. `t` and the result are prices
/// in millionths, `ln_n` and `k` are in millionths.
pub open spec fn bucket_width(t: int, ln_n: int, k: int) -> int {
    (t * k * ln_n) / ((ln_n + ONE) * ONE)
}

/// The scale constants that a baseline `b` gives, with `logs` the logarithms
/// of its order count.
pub open spec fn scales_of(b: RowProperties, logs: LogFactors, separation: u32) -> ScaleConstants {
    ScaleConstants {
        z_scale: b.height_bound / 4,
        x_scale: logs.ln_count_plus_e,
        ln_order_count: logs.ln_count,
        separation,
    }
}

/// Natural logarithms of an order count `n` that scaling needs, in millionths.
/// They are transcendental, so the caller computes them.
#[derive(Clone, Copy, Debug, PartialEq, Eq)]
pub struct LogFactors {
    /// `ln(n)`.
    pub ln_count: u32,
    /// `ln(n + e)`, at least one.
    pub ln_count_plus_e: u32,
}

/// Scale constants of a session, derived once from its baseline row.
#[derive(Clone, Copy, Debug, PartialEq, Eq)]
pub struct ScaleConstants {
    /// Spacing of consecutive rows on the time axis.
    pub z_scale: u64,
    /// Horizontal compression of prices around the midprice, in millionths.
    pub x_scale: u32,
    /// `ln` of the baseline's order count, in millionths.
    pub ln_order_count: u32,
    /// Visual-separation factor of buckets, in millionths.
    pub separation: u32,
}

/// `t * k * ln_n / ((ln_n + ONE) * ONE)` in machine integers.
fn compute_bucket_width(t: u64, ln_n: u32, k: u32) -> (r: u128)
    ensures
        r == bucket_width(t as int, ln_n as int, k as int),
{
    assert(t * k <= u64::MAX * u32::MAX) by (nonlinear_arith)
        requires
            t <= u64::MAX,
            k <= u32::MAX,
    ;
    let a: u128 = (t as u128) * (k as u128);
    assert(a * ln_n <= u128::MAX) by (nonlinear_arith)
        requires
            a == t * k,
            t <= u64::MAX,
            k <= u32::MAX,
            ln_n <= u32::MAX,
    ;
    let num: u128 = a * (ln_n as u128);
    let den: u128 = ((ln_n as u128) + (ONE as u128)) * (ONE as u128);
    num / den
}

impl RowProperties {
    /// Spacing of consecutive rows: a quarter of the height bound.
    pub fn z_scale(&self) -> (r: u64)
        ensures
            r == self.height_bound / 4,
    {
        self.height_bound / 4
    }

    /// Bucket width for `tick_size` when this row's order count has natural
    /// logarithm `ln_order_count` (in millionths), at the default separation.
    pub fn order_width_from_tick_size(&self, tick_size: u64, ln_order_count: u32) -> (r: u128)
        ensures
            r == bucket_width(tick_size as int, ln_order_count as int, SEPARATION as int),
    {
        compute_bucket_width(tick_size, ln_order_count, SEPARATION)
    }
}

impl ScaleConstants {
    /// The constants of a session whose baseline is `baseline`, where `logs`
    /// are the logarithms of the baseline's order count.
    pub fn derive(baseline: &RowProperties, logs: LogFactors, separation: u32) -> (r: ScaleConstants)
        ensures
            r == scales_of(*baseline, logs, separation),
            r.z_scale == baseline.height_bound / 4,
    {
        ScaleConstants {
            z_scale: baseline.z_scale(),
            x_scale: logs.ln_count_plus_e,
            ln_order_count: logs.ln_count,
            separation,
        }
    }

    /// Width of a bucket of a snapshot with tick size `tick_size`.
    pub fn bucket_width(&self, tick_size: u64) -> (r: u128)
        ensures
            r == bucket_width(tick_size as int, self.ln_order_count as int, self.separation as int),
    {
        compute_bucket_width(tick_size, self.ln_order_count, self.separation)
    }
}

/// The bucket width does not decrease as the tick size grows.
pub proof fn lemma_bucket_width_monotone_in_tick(t1: nat, t2: nat, ln_n: nat, k: nat)
    requires
        t1 <= t2,
    ensures
        bucket_width(t1 as int, ln_n as int, k as int) <= bucket_width(t2 as int, ln_n as int, k as int),
{
    let d: int = (ln_n + ONE) * ONE;
    assert(t1 * k * ln_n <= t2 * k * ln_n) by (nonlinear_arith)
        requires
            t1 <= t2,
    ;
    assert(d > 0) by (nonlinear_arith)
        requires
            d == (ln_n + ONE) * ONE,
    ;
    lemma_div_is_ordered((t1 * k * ln_n) as int, (t2 * k * ln_n) as int, d);
}

/// The bucket width approaches `t * k` from below as the order count grows:
/// it never exceeds `t * k`, and falls short of it by at most
/// `t * k / (ln_n + 1)` plus one unit of rounding.
pub proof fn lemma_bucket_width_approaches_limit(t: nat, ln_n: nat, k: nat)
    ensures
        bucket_width(t as int, ln_n as int, k as int) * ONE <= t * k,
        (t * k - ONE * bucket_width(t as int, ln_n as int, k as int)) * (ln_n + ONE)
            <= t * k * ONE + ONE * (ln_n + ONE),
{
    let a: int = (t * k * ln_n) as int;
    let l1: int = ln_n + ONE;
    let d: int = l1 * ONE;
    let q = bucket_width(t as int, ln_n as int, k as int);
    assert(d > 0) by (nonlinear_arith)
        requires
            d == l1 * ONE,
            l1 > 0,
    ;
    lemma_fundamental_div_mod(a, d);
    assert(q == a / d);
    assert(q * d <= a < q * d + d) by {
        vstd::arithmetic::div_mod::lemma_mod_bound(a, d);
        vstd::arithmetic::mul::lemma_mul_is_commutative(d, q);
    }
    assert(q * ONE <= t * k) by (nonlinear_arith)
        requires
            q * (l1 * ONE) <= t * k * ln_n,
            l1 == ln_n + ONE,
            ln_n >= 0,
            t * k >= 0,
    ;
    assert((t * k - ONE * q) * l1 <= t * k * ONE + ONE * l1) by (nonlinear_arith)
        requires
            t * k * ln_n < q * (l1 * ONE) + l1 * ONE,
            l1 == ln_n + ONE,
    ;
}

} // verus!
