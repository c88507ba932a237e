use vstd::prelude::*;

use crate::fixed::floor_div;
use crate::row::RowProperties;
use crate::session::{Frame, Session};

verus! {

/// A point of the scene, in millionths.
#[derive(Clone, Copy, Debug, PartialEq, Eq)]
pub struct Point {
    pub x: i128,
    pub y: i128,
    pub z: i128,
}

/// A ray cast from the camera through the cursor: it starts at `origin` and
/// runs along `direction`, whose length does not matter. In millionths.
#[derive(Clone, Copy, Debug, PartialEq, Eq)]
pub struct Ray {
    pub origin: (i64, i64, i64),
    pub direction: (i64, i64, i64),
}

/// Where the camera stands and the point it looks at.
#[derive(Clone, Copy, Debug, PartialEq, Eq)]
pub struct Pose {
    pub position: Point,
    pub target: Point,
}

/// The camera as the controller keeps it.
#[derive(Clone, Copy, Debug, PartialEq, Eq)]
pub struct Camera {
    pub pose: Pose,
    /// The point the camera orbits around.
    pub pivot: Point,
    /// Recenter on every tick; cleared for good by the user moving the camera.
    pub auto_follow: bool,
    /// The pose must be recomputed from the pivot before the next frame.
    pub refresh: bool,
}

/// A bound on the coordinates of a crossing of the zero-depth plane.
pub const HIT_BOUND: i128 = 0x4000_0000_0000_0000_0000_0000_0000_0000 + 0x8000_0000_0000_0000;

pub open spec fn abs(v: int) -> int {
    if v < 0 {
        -v
    } else {
        v
    }
}

/// The ray meets the zero-depth plane `y = 0`, which holds the price and time
/// axes, strictly in front of its origin.
pub open spec fn meets_zero_plane(ray: Ray) -> bool {
    ray.origin.1 * ray.direction.1 < 0
}

/// Where a ray that meets the zero-depth plane crosses it: the origin moved
/// along the direction by `|origin.y| / |direction.y|` of its length, each
/// coordinate rounded down.
pub open spec fn zero_plane_point(ray: Ray) -> Point {
    let oy = abs(ray.origin.1 as int);
    let dy = abs(ray.direction.1 as int);
    Point {
        x: (ray.origin.0 + ray.direction.0 * oy / dy) as i128,
        y: 0,
        z: (ray.origin.2 + ray.direction.2 * oy / dy) as i128,
    }
}

/// The crossing of the zero-depth plane seen through the cursor, if any:
/// nothing when the cursor is outside the viewport (no ray) or when the ray
/// runs parallel to the plane or away from it.
pub open spec fn cursor_hit(ray: Option<Ray>) -> Option<Point> {
    match ray {
        Some(r) if meets_zero_plane(r) => Some(zero_plane_point(r)),
        _ => None,
    }
}

/// Moves `origin` along `direction` by `oy / dy` of its length, rounded down.
fn advance(origin: i64, direction: i64, oy: i128, dy: i128) -> (r: i128)
    requires
        0 <= oy <= 0x8000_0000_0000_0000,
        0 < dy <= 0x8000_0000_0000_0000,
    ensures
        r == origin + (direction * oy) / (dy as int),
        -HIT_BOUND <= r <= HIT_BOUND,
{
    assert(-0x8000_0000_0000_0000 * 0x8000_0000_0000_0000 <= direction * oy
        <= 0x8000_0000_0000_0000 * 0x8000_0000_0000_0000) by (nonlinear_arith)
        requires
            -0x8000_0000_0000_0000 <= direction < 0x8000_0000_0000_0000,
            0 <= oy <= 0x8000_0000_0000_0000,
    ;
    let q: i128 = floor_div((direction as i128) * oy, dy);
    proof {
        let lo: int = -0x4000_0000_0000_0000_0000_0000_0000_0000int;
        let hi: int = 0x4000_0000_0000_0000_0000_0000_0000_0000int;
        let p: int = direction * oy;
        vstd::arithmetic::div_mod::lemma_div_is_ordered(p, hi, dy as int);
        vstd::arithmetic::div_mod::lemma_div_is_ordered(lo, p, dy as int);
        assert(hi / (dy as int) <= hi) by {
            vstd::arithmetic::div_mod::lemma_div_is_ordered_by_denominator(hi, 1, dy as int);
        }
        assert(lo / (dy as int) >= lo) by (nonlinear_arith)
            requires
                lo < 0,
                dy >= 1,
        {
            vstd::arithmetic::div_mod::lemma_fundamental_div_mod(lo, dy as int);
        }
    }
    origin as i128 + q
}

/// The point where the cursor's ray meets the zero-depth plane.
pub fn zero_plane_hit(ray: Option<Ray>) -> (r: Option<Point>)
    ensures
        r == cursor_hit(ray),
        r matches Some(p) ==> -HIT_BOUND <= p.x <= HIT_BOUND,
{
    match ray {
        None => None,
        Some(ray) => {
            let oy: i128 = ray.origin.1 as i128;
            let dy: i128 = ray.direction.1 as i128;
            if !((oy < 0 && dy > 0) || (oy > 0 && dy < 0)) {
                assert(oy * dy >= 0) by (nonlinear_arith)
                    requires
                        !((oy < 0 && dy > 0) || (oy > 0 && dy < 0)),
                ;
                return None;
            }
            assert(oy * dy < 0) by (nonlinear_arith)
                requires
                    (oy < 0 && dy > 0) || (oy > 0 && dy < 0),
            ;
            let oy_abs: i128 = if oy < 0 {
                -oy
            } else {
                oy
            };
            let dy_abs: i128 = if dy < 0 {
                -dy
            } else {
                dy
            };
            Some(
                Point {
                    x: advance(ray.origin.0, ray.direction.0, oy_abs, dy_abs),
                    y: 0,
                    z: advance(ray.origin.2, ray.direction.2, oy_abs, dy_abs),
                },
            )
        },
    }
}

/// The pose that frames the accumulated history: above the latest row's height
/// bound, back from the newest row by one and a half times the latest width,
/// level with the drift of the midprice since the baseline, looking at that
/// drift on the price axis.
pub open spec fn recentered(frame: Frame, last: RowProperties, rows: nat) -> Pose {
    let drift = last.midprice - frame.baseline.midprice;
    Pose {
        position: Point {
            x: drift as i128,
            y: last.height_bound as i128,
            z: (last.width * 3 / 2 + rows * frame.scales.z_scale) as i128,
        },
        target: Point { x: drift as i128, y: 0, z: 0 },
    }
}

/// The price under the cursor: the baseline midprice plus the price offset
/// of the point where the cursor's ray meets the zero-depth plane. Nothing
/// before the session has a baseline, nor when the ray misses the plane.
pub open spec fn price_reading(frame: Option<Frame>, ray: Option<Ray>) -> Option<int> {
    match (frame, cursor_hit(ray)) {
        (Some(f), Some(p)) => Some(f.baseline.midprice + p.x),
        _ => None,
    }
}

/// Reads the price under the cursor; a pure query.
pub fn price_under_cursor(session: &Session, ray: Option<Ray>) -> (r: Option<i128>)
    ensures
        r matches Some(v) ==> price_reading(session@.frame, ray) == Some(v as int),
        r is None ==> price_reading(session@.frame, ray) is None,
{
    match (session.frame(), zero_plane_hit(ray)) {
        (Some(f), Some(p)) => Some(f.baseline.midprice as i128 + p.x),
        _ => None,
    }
}

impl Camera {
    /// A camera at the origin that follows the data until the user moves it.
    pub fn new() -> (r: Camera)
        ensures
            r.pose.position == (Point { x: 0, y: 0, z: 0 }),
            r.pose.target == (Point { x: 0, y: 0, z: 0 }),
            r.pivot == (Point { x: 0, y: 0, z: 0 }),
            r.auto_follow,
            !r.refresh,
    {
        let origin = Point { x: 0, y: 0, z: 0 };
        Camera { pose: Pose { position: origin, target: origin }, pivot: origin, auto_follow: true, refresh: false }
    }

    /// Frames the history drawn so far and orbits around the point looked at.
    /// Nothing happens before the session has a baseline.
    pub fn recenter(&mut self, session: &Session)
        requires
            session@.wf(),
        ensures
            match (session@.frame, session@.last) {
                (Some(f), Some(m)) => {
                    &&& final(self).pose == recentered(f, m, session@.rows)
                    &&& final(self).pivot == final(self).pose.target
                    &&& final(self).auto_follow == old(self).auto_follow
                    &&& final(self).refresh == old(self).refresh
                },
                _ => *final(self) == *old(self),
            },
    {
        match (session.frame(), session.last()) {
            (Some(f), Some(m)) => {
                let drift: i128 = m.midprice as i128 - f.baseline.midprice as i128;
                let rows: u64 = session.rows();
                assert(rows * f.scales.z_scale <= 0xffff_ffff_ffff_ffff * 0x4000_0000_0000_0000)
                    by (nonlinear_arith)
                    requires
                        rows <= 0xffff_ffff_ffff_ffff,
                        f.scales.z_scale <= 0x4000_0000_0000_0000,
                ;
                let back: i128 = floor_div(m.width * 3, 2) + (rows as i128) * (f.scales.z_scale as i128);
                let target = Point { x: drift, y: 0, z: 0 };
                self.pose = Pose {
                    position: Point { x: drift, y: m.height_bound as i128, z: back },
                    target,
                };
                self.pivot = target;
            },
            _ => {},
        }
    }

    /// Moves the pivot to the point of the zero-depth plane under the cursor
    /// and asks for the pose to be refreshed. When there is no such point
    /// (cursor outside the viewport, ray parallel to the plane or pointing
    /// away from it) nothing changes. Returns the point.
    pub fn set_rotation_pivot(&mut self, ray: Option<Ray>) -> (r: Option<Point>)
        ensures
            r == cursor_hit(ray),
            match r {
                Some(p) => *final(self) == (Camera { pivot: p, refresh: true, ..*old(self) }),
                None => *final(self) == *old(self),
            },
    {
        let hit = zero_plane_hit(ray);
        match hit {
            Some(p) => {
                self.pivot = p;
                self.refresh = true;
            },
            None => {},
        }
        hit
    }

    /// The user panned or orbited the camera: stop following the data.
    pub fn user_moved(&mut self)
        ensures
            *final(self) == (Camera { auto_follow: false, ..*old(self) }),
    {
        self.auto_follow = false;
    }

    /// Once per tick: recenter while following the data.
    pub fn on_tick(&mut self, session: &Session)
        requires
            session@.wf(),
        ensures
            !old(self).auto_follow ==> *final(self) == *old(self),
            old(self).auto_follow ==> match (session@.frame, session@.last) {
                (Some(f), Some(m)) => {
                    &&& final(self).pose == recentered(f, m, session@.rows)
                    &&& final(self).pivot == final(self).pose.target
                    &&& final(self).auto_follow
                    &&& final(self).refresh == old(self).refresh
                },
                _ => *final(self) == *old(self),
            },
    {
        if self.auto_follow {
            self.recenter(session);
        }
    }
}

} // verus!
