use vstd::prelude::*;

use crate::geometry::{place_side, side_bars, Bar};
use crate::row::{row_of, row_properties, Plottable, RowProperties, CLIP_PERCENTILE};
use crate::scales::{scales_of, LogFactors, ScaleConstants, SEPARATION};

verus! {

/// The default render budget: bars spawned before the session stops drawing.
pub const BUDGET_CAP: u64 = 250_000;

/// Tunable constants of a session.
#[derive(Clone, Copy, Debug, PartialEq, Eq)]
pub struct Config {
    /// Percentile of the depths that bounds the vertical scale, in millionths.
    pub clip_percentile: u32,
    /// Visual-separation factor of buckets, in millionths.
    pub separation: u32,
    /// Render budget: once more bars than this were spawned, no more are.
    pub budget_cap: u64,
}

impl Default for Config {
    fn default() -> (r: Config)
        ensures
            r.clip_percentile == CLIP_PERCENTILE,
            r.separation == SEPARATION,
            r.budget_cap == BUDGET_CAP,
    {
        Config { clip_percentile: CLIP_PERCENTILE, separation: SEPARATION, budget_cap: BUDGET_CAP }
    }
}

/// One order-book observation, bucketed into its two sides.
#[derive(Debug)]
pub struct Snapshot {
    /// Price granularity of the market, in millionths.
    pub tick_size: u64,
    pub bids: Plottable,
    pub asks: Plottable,
    /// Logarithms of this snapshot's order count (its buckets over both sides).
    pub logs: LogFactors,
}

impl Snapshot {
    pub open spec fn wf(&self) -> bool {
        self.bids.wf() && self.asks.wf()
    }
}

/// The frame of reference of a session: its baseline row and the scale
/// constants derived from it.
#[derive(Clone, Copy, Debug, PartialEq, Eq)]
pub struct Frame {
    pub baseline: RowProperties,
    pub scales: ScaleConstants,
}

/// What a session is, as contracts see it.
pub struct SessionState {
    pub config: Config,
    /// Set by the first accepted snapshot, then never again.
    pub frame: Option<Frame>,
    /// Metrics of the latest accepted snapshot.
    pub last: Option<RowProperties>,
    /// Accepted snapshots so far: the index of the next row.
    pub rows: nat,
    /// Bars spawned so far.
    pub rendered: nat,
}

impl SessionState {
    /// The render budget has been used up: nothing more is drawn.
    pub open spec fn exhausted(self) -> bool {
        self.rendered > self.config.budget_cap
    }

    /// Bounds that keep the counters in their machine integers.
    pub open spec fn wf(self) -> bool {
        &&& 2 * self.rows <= self.rendered
        &&& self.rendered <= self.config.budget_cap + usize::MAX
        &&& (self.frame is Some <==> self.last is Some)
        &&& self.frame matches Some(f) ==> f.scales.z_scale == f.baseline.height_bound / 4
        &&& self.last matches Some(m) ==> m.wf()
    }
}

/// The metrics of `snap` under the configuration of `s`.
pub open spec fn row_in(s: SessionState, snap: Snapshot) -> Option<RowProperties> {
    row_of(snap.bids, snap.asks, s.config.clip_percentile)
}

/// `snap` becomes a row: the budget is not used up and neither side is empty.
pub open spec fn accepts(s: SessionState, snap: Snapshot) -> bool {
    !s.exhausted() && row_in(s, snap) is Some
}

/// The frame after a snapshot with metrics `m` was accepted: the existing one,
/// or on the first one the frame that `m` gives.
pub open spec fn frame_after(s: SessionState, m: RowProperties, logs: LogFactors) -> Frame {
    match s.frame {
        Some(f) => f,
        None => Frame { baseline: m, scales: scales_of(m, logs, s.config.separation) },
    }
}

/// The bars that `snap` spawns in state `s`: bids, then asks, in row `s.rows`.
pub open spec fn spawned(s: SessionState, snap: Snapshot) -> Seq<Bar> {
    match row_in(s, snap) {
        Some(m) if !s.exhausted() => {
            let f = frame_after(s, m, snap.logs);
            side_bars(snap.bids, m, f.baseline, f.scales, snap.tick_size, s.rows) + side_bars(
                snap.asks,
                m,
                f.baseline,
                f.scales,
                snap.tick_size,
                s.rows,
            )
        },
        _ => Seq::empty(),
    }
}

/// The number of bars that `snap` spawns in state `s`.
pub open spec fn bars_of(s: SessionState, snap: Snapshot) -> nat {
    match row_in(s, snap) {
        Some(m) if !s.exhausted() => m.order_count as nat,
        _ => 0,
    }
}

/// The state after `snap`. A snapshot that is not accepted changes nothing.
pub open spec fn step(s: SessionState, snap: Snapshot) -> SessionState {
    match row_in(s, snap) {
        Some(m) if !s.exhausted() => SessionState {
            frame: Some(frame_after(s, m, snap.logs)),
            last: Some(m),
            rows: s.rows + 1,
            rendered: s.rendered + m.order_count as nat,
            ..s
        },
        _ => s,
    }
}

/// The state after `snaps`, in order.
pub open spec fn run(s: SessionState, snaps: Seq<Snapshot>) -> SessionState
    decreases snaps.len(),
{
    if snaps.len() == 0 {
        s
    } else {
        step(run(s, snaps.drop_last()), snaps.last())
    }
}

/// Once a session has its baseline, no later snapshot changes it, nor the
/// scale constants derived from it.
pub proof fn lemma_baseline_immutable(s: SessionState, snaps: Seq<Snapshot>)
    requires
        s.frame is Some,
    ensures
        run(s, snaps).frame == s.frame,
    decreases snaps.len(),
{
    if snaps.len() > 0 {
        lemma_baseline_immutable(s, snaps.drop_last());
    }
}

/// Once the render budget is used up, later snapshots spawn no bar and change
/// nothing.
pub proof fn lemma_exhausted_session_is_frozen(s: SessionState, snaps: Seq<Snapshot>)
    requires
        s.exhausted(),
    ensures
        run(s, snaps) == s,
        forall|i: int|
            0 <= i < snaps.len() ==> #[trigger] spawned(run(s, snaps.take(i)), snaps[i]).len() == 0,
    decreases snaps.len(),
{
    if snaps.len() > 0 {
        lemma_exhausted_session_is_frozen(s, snaps.drop_last());
    }
    assert forall|i: int| 0 <= i < snaps.len() implies #[trigger] spawned(
        run(s, snaps.take(i)),
        snaps[i],
    ).len() == 0 by {
        lemma_exhausted_session_is_frozen(s, snaps.take(i));
    }
}

/// The bars spawned in a session that starts within its budget exceed the
/// budget by at most the size of one snapshot: either the total is within
/// the budget, or some snapshot found the total within it and its own bars
/// made up the rest.
pub proof fn lemma_budget_overshoot(s: SessionState, snaps: Seq<Snapshot>)
    requires
        !s.exhausted(),
    ensures
        !run(s, snaps).exhausted() || exists|i: int|
            0 <= i < snaps.len() && !(#[trigger] run(s, snaps.take(i))).exhausted()
                && run(s, snaps).rendered == run(s, snaps.take(i)).rendered + bars_of(
                run(s, snaps.take(i)),
                snaps[i],
            ),
    decreases snaps.len(),
{
    if snaps.len() > 0 {
        let n = snaps.len() as int;
        let init = snaps.drop_last();
        let p = run(s, init);
        lemma_budget_overshoot(s, init);
        if p.exhausted() {
            let i = choose|i: int|
                0 <= i < init.len() && !(#[trigger] run(s, init.take(i))).exhausted()
                    && run(s, init).rendered == run(s, init.take(i)).rendered + bars_of(
                    run(s, init.take(i)),
                    init[i],
                );
            assert(init.take(i) == snaps.take(i));
            assert(init[i] == snaps[i]);
        } else if run(s, snaps).exhausted() {
            assert(snaps.take(n - 1) == init);
        }
    }
}

/// What became of one snapshot.
#[derive(Debug)]
pub enum Ingest {
    /// The render budget was used up before it: dropped without a look.
    Discarded,
    /// A side was empty: skipped, nothing changed.
    Skipped,
    /// Drawn as a new row.
    Spawned {
        bars: Vec<Bar>,
        /// This row took the total over the budget: the last one drawn.
        budget_crossed: bool,
    },
}

/// The state of one viewing session, owned by the loop that consumes snapshots.
pub struct Session {
    config: Config,
    frame: Option<Frame>,
    last: Option<RowProperties>,
    rows: u64,
    rendered: u128,
}

impl View for Session {
    type V = SessionState;

    closed spec fn view(&self) -> SessionState {
        SessionState {
            config: self.config,
            frame: self.frame,
            last: self.last,
            rows: self.rows as nat,
            rendered: self.rendered as nat,
        }
    }
}

impl Session {
    /// A session with nothing drawn yet.
    pub fn new(config: Config) -> (r: Session)
        ensures
            r@.wf(),
            r@ == (SessionState { config, frame: None, last: None, rows: 0, rendered: 0 }),
    {
        Session { config, frame: None, last: None, rows: 0, rendered: 0 }
    }

    pub fn config(&self) -> (r: Config)
        ensures
            r == self@.config,
    {
        self.config
    }

    /// The baseline row, once a snapshot was accepted.
    pub fn baseline(&self) -> (r: Option<RowProperties>)
        ensures
            r == (match self@.frame {
                Some(f) => Some(f.baseline),
                None => None,
            }),
    {
        match self.frame {
            Some(f) => Some(f.baseline),
            None => None,
        }
    }

    pub fn frame(&self) -> (r: Option<Frame>)
        ensures
            r == self@.frame,
    {
        self.frame
    }

    /// Metrics of the latest accepted snapshot.
    pub fn last(&self) -> (r: Option<RowProperties>)
        ensures
            r == self@.last,
    {
        self.last
    }

    /// Index of the next row.
    pub fn rows(&self) -> (r: u64)
        ensures
            r == self@.rows,
    {
        self.rows
    }

    /// Bars spawned so far.
    pub fn rendered(&self) -> (r: u128)
        ensures
            r == self@.rendered,
    {
        self.rendered
    }

    /// The render budget has been used up.
    pub fn exhausted(&self) -> (r: bool)
        ensures
            r == self@.exhausted(),
    {
        self.rendered > self.config.budget_cap as u128
    }

    /// Takes in one snapshot: measures it, fixes the frame on the first
    /// accepted one, places its bars in the next row and counts them against
    /// the budget.
    ///
    /// Once the budget is used up, snapshots are still taken, so that the
    /// queue keeps draining, but discarded: the time axis ends with the row
    /// that crossed the budget.
    pub fn ingest(&mut self, snap: &Snapshot) -> (r: Ingest)
        requires
            old(self)@.wf(),
            snap.wf(),
        ensures
            final(self)@.wf(),
            final(self)@ == step(old(self)@, *snap),
            r is Discarded <==> old(self)@.exhausted(),
            r is Skipped <==> !old(self)@.exhausted() && (snap.bids.x@.len() == 0
                || snap.asks.x@.len() == 0),
            r is Spawned <==> accepts(old(self)@, *snap),
            r matches Ingest::Spawned { bars, budget_crossed } ==> {
                &&& bars@ == spawned(old(self)@, *snap)
                &&& bars@.len() == snap.bids.x@.len() + snap.asks.x@.len()
                &&& final(self)@.rendered == old(self)@.rendered + bars@.len()
                &&& final(self)@.rows == old(self)@.rows + 1
                &&& budget_crossed == final(self)@.exhausted()
            },
            !(r is Spawned) ==> final(self)@ == old(self)@,
            old(self)@.frame is Some ==> final(self)@.frame == old(self)@.frame,
    {
        if self.exhausted() {
            return Ingest::Discarded;
        }
        let m: RowProperties = match row_properties(&snap.bids, &snap.asks, self.config.clip_percentile) {
            Some(m) => m,
            None => {
                return Ingest::Skipped;
            },
        };
        let frame: Frame = match self.frame {
            Some(f) => f,
            None => Frame {
                baseline: m,
                scales: ScaleConstants::derive(&m, snap.logs, self.config.separation),
            },
        };
        let mut bars: Vec<Bar> = Vec::new();
        place_side(&snap.bids, &m, &frame.baseline, &frame.scales, snap.tick_size, self.rows, &mut bars);
        place_side(&snap.asks, &m, &frame.baseline, &frame.scales, snap.tick_size, self.rows, &mut bars);
        self.frame = Some(frame);
        self.last = Some(m);
        self.rows = self.rows + 1;
        self.rendered = self.rendered + m.order_count as u128;
        let budget_crossed: bool = self.rendered > self.config.budget_cap as u128;
        Ingest::Spawned { bars, budget_crossed }
    }
}

} // verus!
