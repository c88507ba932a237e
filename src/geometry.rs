use vstd::prelude::*;

use crate::fixed::{floor_div, ONE};
use crate::row::{Plottable, RowProperties};
use crate::scales::{bucket_width, lemma_bucket_width_approaches_limit, ScaleConstants};

verus! {

/// One placed bar of a row: its centre and its extent on each axis.
///
/// `x` is the price axis, `y` the depth axis (bars rise from depth zero) and
/// `z` the time axis. All are fixed-point numbers in millionths.
#[derive(Clone, Copy, Debug, PartialEq, Eq)]
pub struct Bar {
    pub x: i128,
    pub y: u64,
    pub z: u128,
    pub size_x: u128,
    pub size_y: u64,
    pub size_z: u64,
}

/// Horizontal centre of the bucket at `price` in a row with metrics `m`, in a
/// session whose baseline is `b`: the offset from the row's midprice, scaled,
/// shifted by the drift of the midprice since the baseline.
pub open spec fn bar_x(price: i64, m: RowProperties, b: RowProperties, x_scale: u32) -> int {
    (price - m.midprice) * x_scale / (ONE as int) - (m.midprice - b.midprice)
}

/// The bar of a bucket at `price` with depth `depth`, in row `row` of a
/// snapshot with metrics `m` and tick size `tick_size`.
pub open spec fn bar_at(
    price: i64,
    depth: u64,
    m: RowProperties,
    b: RowProperties,
    sc: ScaleConstants,
    tick_size: u64,
    row: nat,
) -> Bar {
    Bar {
        x: bar_x(price, m, b, sc.x_scale) as i128,
        y: depth / 2,
        z: (row * sc.z_scale) as u128,
        size_x: (bucket_width(tick_size as int, sc.ln_order_count as int, sc.separation as int)
            * sc.x_scale / (ONE as int)) as u128,
        size_y: depth,
        size_z: (sc.z_scale * 9 / 10) as u64,
    }
}

/// The bars of one side, bucket by bucket.
pub open spec fn side_bars(
    side: Plottable,
    m: RowProperties,
    b: RowProperties,
    sc: ScaleConstants,
    tick_size: u64,
    row: nat,
) -> Seq<Bar> {
    Seq::new(side.x@.len(), |i: int| bar_at(side.x@[i], side.y@[i], m, b, sc, tick_size, row))
}

/// Places one bucket.
pub fn place_bar(
    price: i64,
    depth: u64,
    m: &RowProperties,
    b: &RowProperties,
    sc: &ScaleConstants,
    tick_size: u64,
    row: u64,
) -> (r: Bar)
    ensures
        r == bar_at(price, depth, *m, *b, *sc, tick_size, row as nat),
{
    let offset: i128 = price as i128 - m.midprice as i128;
    assert(-0x1_0000_0000_0000_0000 * 0x1_0000_0000 <= offset * sc.x_scale <= 0x1_0000_0000_0000_0000 * 0x1_0000_0000)
        by (nonlinear_arith)
        requires
            -0x1_0000_0000_0000_0000 <= offset <= 0x1_0000_0000_0000_0000,
            0 <= sc.x_scale <= 0x1_0000_0000,
    ;
    let scaled: i128 = floor_div(offset * (sc.x_scale as i128), ONE as i128);
    let drift: i128 = m.midprice as i128 - b.midprice as i128;
    let width: u128 = sc.bucket_width(tick_size);
    proof {
        lemma_bucket_width_approaches_limit(
            tick_size as nat,
            sc.ln_order_count as nat,
            sc.separation as nat,
        );
    }
    assert(width * sc.x_scale * 1_000_000 <= 0xffff_ffff_ffff_ffff * 0xffff_ffff * 0xffff_ffff)
        by (nonlinear_arith)
        requires
            width * 1_000_000 <= tick_size * sc.separation,
            tick_size <= 0xffff_ffff_ffff_ffff,
            sc.separation <= 0xffff_ffff,
            sc.x_scale <= 0xffff_ffff,
    ;
    assert(row * sc.z_scale <= 0xffff_ffff_ffff_ffff * 0xffff_ffff_ffff_ffff) by (nonlinear_arith)
        requires
            row <= 0xffff_ffff_ffff_ffff,
            sc.z_scale <= 0xffff_ffff_ffff_ffff,
    ;
    Bar {
        x: scaled - drift,
        y: depth / 2,
        z: (row as u128) * (sc.z_scale as u128),
        size_x: width * (sc.x_scale as u128) / (ONE as u128),
        size_y: depth,
        size_z: ((sc.z_scale as u128) * 9 / 10) as u64,
    }
}

/// Appends the bars of one side to `out`.
pub fn place_side(
    side: &Plottable,
    m: &RowProperties,
    b: &RowProperties,
    sc: &ScaleConstants,
    tick_size: u64,
    row: u64,
    out: &mut Vec<Bar>,
)
    requires
        side.wf(),
    ensures
        final(out)@ == old(out)@ + side_bars(*side, *m, *b, *sc, tick_size, row as nat),
{
    let ghost bars = side_bars(*side, *m, *b, *sc, tick_size, row as nat);
    let mut i: usize = 0;
    while i < side.x.len()
        invariant
            side.wf(),
            0 <= i <= side.x@.len(),
            bars == side_bars(*side, *m, *b, *sc, tick_size, row as nat),
            out@ == old(out)@ + bars.subrange(0, i as int),
        decreases side.x@.len() - i,
    {
        let bar: Bar = place_bar(side.x[i], side.y[i], m, b, sc, tick_size, row);
        out.push(bar);
        i = i + 1;
        assert(bars.subrange(0, i as int) == bars.subrange(0, i - 1).push(bar));
    }
    assert(bars.subrange(0, i as int) == bars);
}

} // verus!
