use depth_slices::row::RowProperties;
use depth_slices::scales::{LogFactors, ScaleConstants, SEPARATION};

fn millionths(v: f64) -> u32 {
    (v * 1e6).round() as u32
}

fn row(height_bound: u64, order_count: usize) -> RowProperties {
    RowProperties { width: 0, height_bound, midprice: 0, order_count }
}

#[test]
fn test_order_width_from_tick_size() {
    let tick_size = 100_000; // 0.1
    let row_properties = row(0, 100);
    let ln_n = millionths((row_properties.order_count as f64).ln());
    let result = row_properties.order_width_from_tick_size(tick_size, ln_n);
    // 0.1 * ln(100) / (ln(100) + 1) * 0.5
    let expected = 0.1 * 100f64.ln() / (100f64.ln() + 1.0) * 0.5;
    assert!((result as f64 / 1e6 - expected).abs() < 2e-6);
    assert_eq!(result, 41_079);
}

#[test]
fn bucket_width_grows_with_separation() {
    let logs = LogFactors { ln_count: 4_605_170, ln_count_plus_e: 4_631_721 };
    let half = ScaleConstants::derive(&row(8, 100), logs, 500_000);
    let three_quarters = ScaleConstants::derive(&row(8, 100), logs, 750_000);
    assert_eq!(half.bucket_width(100_000), 41_079);
    assert_eq!(three_quarters.bucket_width(100_000), 61_619);
}

#[test]
fn bucket_width_is_monotone_in_tick_size() {
    let logs = LogFactors { ln_count: 2_000_000, ln_count_plus_e: 2_100_000 };
    let sc = ScaleConstants::derive(&row(8, 7), logs, SEPARATION);
    let mut previous = 0;
    for tick in [0u64, 1, 2, 3, 10, 999, 1_000, 100_000, u64::MAX / 2, u64::MAX] {
        let w = sc.bucket_width(tick);
        assert!(w >= previous);
        previous = w;
    }
}

#[test]
fn bucket_width_approaches_tick_times_separation() {
    let tick = 1_000_000u64;
    let mut last_gap = u128::MAX;
    for n in [2u64, 10, 1_000, 1_000_000, 1_000_000_000_000] {
        let ln_n = millionths((n as f64).ln());
        let w = row(0, 0).order_width_from_tick_size(tick, ln_n);
        let limit = tick as u128 / 2;
        assert!(w <= limit);
        let gap = limit - w;
        assert!(gap <= last_gap);
        last_gap = gap;
    }
    assert!(last_gap < limit_fraction(tick));
}

fn limit_fraction(tick: u64) -> u128 {
    // within four percent of the limit at a trillion orders
    tick as u128 / 2 / 25
}

#[test]
fn scale_constants_come_from_the_baseline() {
    let logs = LogFactors { ln_count: 1, ln_count_plus_e: 2 };
    let sc = ScaleConstants::derive(&row(4_000_003, 10), logs, 600_000);
    assert_eq!(sc.z_scale, 1_000_000);
    assert_eq!(sc.x_scale, 2);
    assert_eq!(sc.ln_order_count, 1);
    assert_eq!(sc.separation, 600_000);
    assert_eq!(row(4_000_003, 10).z_scale(), 1_000_000);
}

#[test]
fn bucket_width_of_largest_inputs_fits() {
    let logs = LogFactors { ln_count: u32::MAX, ln_count_plus_e: u32::MAX };
    let sc = ScaleConstants::derive(&row(u64::MAX, 1), logs, u32::MAX);
    let w = sc.bucket_width(u64::MAX);
    let exact = (u64::MAX as u128 * u32::MAX as u128 * u32::MAX as u128)
        / ((u32::MAX as u128 + 1_000_000) * 1_000_000);
    assert_eq!(w, exact);
}
