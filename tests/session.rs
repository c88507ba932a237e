use depth_slices::geometry::Bar;
use depth_slices::row::Plottable;
use depth_slices::scales::LogFactors;
use depth_slices::session::{Config, Ingest, Session, Snapshot};

fn logs_of(n: usize) -> LogFactors {
    let n = n as f64;
    LogFactors {
        ln_count: (n.ln() * 1e6).round() as u32,
        ln_count_plus_e: ((n + std::f64::consts::E).ln() * 1e6).round() as u32,
    }
}

fn snapshot(bids: (&[i64], &[u64]), asks: (&[i64], &[u64])) -> Snapshot {
    let n = bids.0.len() + asks.0.len();
    Snapshot {
        tick_size: 1_000_000,
        bids: Plottable { x: bids.0.to_vec(), y: bids.1.to_vec() },
        asks: Plottable { x: asks.0.to_vec(), y: asks.1.to_vec() },
        logs: logs_of(n),
    }
}

fn simple(mid: i64) -> Snapshot {
    snapshot(
        (&[mid - 1_000_000, mid - 2_000_000], &[4_000_000, 8_000_000]),
        (&[mid + 1_000_000, mid + 2_000_000], &[2_000_000, 6_000_000]),
    )
}

fn bars(r: Ingest) -> (Vec<Bar>, bool) {
    match r {
        Ingest::Spawned { bars, budget_crossed } => (bars, budget_crossed),
        other => panic!("expected a row, got {:?}", other),
    }
}

#[test]
fn default_config_values() {
    let c = Config::default();
    assert_eq!(c.clip_percentile, 954_450);
    assert_eq!(c.separation, 500_000);
    assert_eq!(c.budget_cap, 250_000);
}

#[test]
fn first_snapshot_sets_baseline_and_scales() {
    let mut s = Session::new(Config::default());
    assert!(s.baseline().is_none());
    let (b, crossed) = bars(s.ingest(&simple(100_000_000)));
    assert!(!crossed);
    assert_eq!(b.len(), 4);
    let base = s.baseline().unwrap();
    assert_eq!(base.midprice, 100_000_000);
    assert_eq!(base.width, 4_000_000);
    assert_eq!(base.height_bound, 8_000_000);
    assert_eq!(base.order_count, 4);
    let f = s.frame().unwrap();
    assert_eq!(f.scales.z_scale, 2_000_000);
    assert_eq!(f.scales.x_scale, logs_of(4).ln_count_plus_e);
    assert_eq!(s.last(), Some(base));
    assert_eq!(s.rows(), 1);
    assert_eq!(s.rendered(), 4);
}

#[test]
fn bar_placement_of_first_row() {
    let mut s = Session::new(Config::default());
    let (b, _) = bars(s.ingest(&simple(100_000_000)));
    let x_scale = logs_of(4).ln_count_plus_e as i128;
    // best bid: one unit below the mid, no drift yet
    assert_eq!(b[0].x, (-1_000_000 * x_scale).div_euclid(1_000_000));
    assert_eq!(b[0].y, 2_000_000);
    assert_eq!(b[0].size_y, 4_000_000);
    assert_eq!(b[0].z, 0);
    assert_eq!(b[0].size_z, 1_800_000);
    // asks come after bids
    assert_eq!(b[2].x, x_scale);
    assert_eq!(b[3].y, 3_000_000);
    let ln = logs_of(4).ln_count as u128;
    let width = 1_000_000u128 * 500_000 * ln / ((ln + 1_000_000) * 1_000_000);
    assert_eq!(b[0].size_x, width * x_scale as u128 / 1_000_000);
}

#[test]
fn baseline_is_never_replaced() {
    let mut s = Session::new(Config::default());
    s.ingest(&simple(100_000_000));
    let frame = s.frame().unwrap();
    let bigger = snapshot(
        (&[90_000_000, 80_000_000, 70_000_000], &[50_000_000, 60_000_000, 70_000_000]),
        (&[110_000_000], &[90_000_000]),
    );
    s.ingest(&bigger);
    s.ingest(&snapshot((&[], &[]), (&[1], &[1])));
    s.ingest(&simple(200_000_000));
    assert_eq!(s.frame().unwrap(), frame);
    assert_eq!(s.last().unwrap().midprice, 200_000_000);
}

#[test]
fn later_rows_drift_against_the_baseline() {
    let mut s = Session::new(Config::default());
    s.ingest(&simple(100_000_000));
    let (b, _) = bars(s.ingest(&simple(103_000_000)));
    let x_scale = logs_of(4).ln_count_plus_e as i128;
    assert_eq!(b[2].x, x_scale - 3_000_000);
}

#[test]
fn two_rows_advance_the_index_by_two() {
    let mut s = Session::new(Config::default());
    let before = s.rows();
    let (first, _) = bars(s.ingest(&simple(100_000_000)));
    let (second, _) = bars(s.ingest(&simple(100_500_000)));
    assert_eq!(s.rows(), before + 2);
    let z_scale = s.frame().unwrap().scales.z_scale as u128;
    assert_eq!(second[0].z - first[0].z, z_scale);
    assert!(first.iter().all(|b| b.z == first[0].z));
    assert!(second.iter().all(|b| b.z == second[0].z));
}

#[test]
fn empty_bids_are_skipped() {
    let mut s = Session::new(Config::default());
    s.ingest(&simple(100_000_000));
    let rows = s.rows();
    let rendered = s.rendered();
    let r = s.ingest(&snapshot((&[], &[]), (&[101_000_000], &[1_000_000])));
    assert!(matches!(r, Ingest::Skipped));
    assert_eq!(s.rows(), rows);
    assert_eq!(s.rendered(), rendered);
}

#[test]
fn empty_snapshot_before_baseline_changes_nothing() {
    let mut s = Session::new(Config::default());
    let r = s.ingest(&snapshot((&[], &[]), (&[], &[])));
    assert!(matches!(r, Ingest::Skipped));
    assert_eq!(s.rows(), 0);
    assert!(s.baseline().is_none());
    assert!(s.last().is_none());
}

#[test]
fn budget_latches_after_the_crossing_row() {
    let config = Config { budget_cap: 10, ..Config::default() };
    let mut s = Session::new(config);
    let (_, crossed) = bars(s.ingest(&simple(100_000_000)));
    assert!(!crossed);
    let (_, crossed) = bars(s.ingest(&simple(100_000_000)));
    assert!(!crossed);
    assert_eq!(s.rendered(), 8);
    // 8 is within the cap: this row is drawn and crosses it
    let big = snapshot(
        (&[99, 98, 97], &[1, 1, 1]),
        (&[101, 102, 103, 104], &[1, 1, 1, 1]),
    );
    let (b, crossed) = bars(s.ingest(&big));
    assert!(crossed);
    assert_eq!(b.len(), 7);
    assert_eq!(s.rendered(), 15);
    assert!(s.rendered() <= 10 + 7);
    assert!(s.exhausted());
    let rows = s.rows();
    for _ in 0..3 {
        assert!(matches!(s.ingest(&simple(100_000_000)), Ingest::Discarded));
    }
    assert_eq!(s.rows(), rows);
    assert_eq!(s.rendered(), 15);
}

#[test]
fn exactly_at_the_cap_keeps_drawing() {
    let config = Config { budget_cap: 8, ..Config::default() };
    let mut s = Session::new(config);
    s.ingest(&simple(100_000_000));
    let (_, crossed) = bars(s.ingest(&simple(100_000_000)));
    assert!(!crossed);
    assert!(!s.exhausted());
    let (_, crossed) = bars(s.ingest(&simple(100_000_000)));
    assert!(crossed);
    assert_eq!(s.rendered(), 12);
}
