//! Pose estimator: fuses an absolute positioning sensor with optional
//! wheel-travel readings into one continuously refreshed pose snapshot.
//!
//! The estimator is fed one tick at a time: the caller polls the sensor
//! every native update interval and hands the (possibly failed) readings
//! to [`GpsWheeledTracking::refresh`] together with the elapsed time.  A
//! failed position or heading read pins the published value at the last
//! good reading — absence never decays the pose toward a default.  The
//! caller publishes the snapshot atomically (for instance behind a
//! mutex-guarded copy); readers take the whole snapshot in one piece and
//! never trigger a refresh themselves.

use vstd::prelude::*;

verus! {

use crate::angle::angle_canonical;
use crate::angle::shortest_err_spec;
use crate::angle::shortest_signed_error;
use crate::geom::Point;
use crate::geom::dist_mm_spec;
use crate::geom::distance_mm;
use crate::geom::point_within;
use crate::num::div_floor_i64;

/// Largest travel magnitude accepted from a single wheel, in millimeters.
pub const WHEEL_TRAVEL_LIMIT_MM: i64 = 1_000_000_000_000;

/// One published pose snapshot.  Readers always see a whole snapshot.
#[derive(Clone, Copy, PartialEq, Eq, Structural, Debug)]
pub struct TrackingData {
    /// Global position, millimeters.
    pub position: Point,
    /// Heading, canonical millidegrees.
    pub heading_mdeg: i64,
    /// Average cumulative travel of the forward wheels, millimeters.
    pub forward_travel_mm: i64,
    /// Speed over ground, millimeters per second.
    pub linear_velocity_mm_s: i64,
    /// Turn rate, millidegrees per second.
    pub angular_velocity_mdeg_s: i64,
}

/// One poll of the absolute sensor; each part fails independently.
#[derive(Clone, Copy, PartialEq, Eq, Structural, Debug)]
pub struct GpsReading {
    pub position: Option<Point>,
    pub heading_mdeg: Option<i64>,
    /// Turn rate from the sensor's gyro, millidegrees per second.
    pub angular_rate_mdeg_s: Option<i64>,
}

/// A reading in range: coordinates, heading and rate the estimator can
/// take without overflow.
pub open spec fn reading_wf(r: GpsReading) -> bool {
    &&& (r.position matches Some(p) ==> point_within(p, 1_000_000_000))
    &&& (r.heading_mdeg matches Some(h) ==> angle_canonical(h as int))
    &&& (r.angular_rate_mdeg_s matches Some(w) ==> -1_000_000_000 <= w <= 1_000_000_000)
}

/// The estimator: the latest published snapshot plus the bookkeeping
/// needed to derive velocities on the next refresh.
#[derive(Clone, Copy, PartialEq, Eq, Structural, Debug)]
pub struct GpsWheeledTracking {
    /// Latest published snapshot.
    pub data: TrackingData,
    /// Position at the previous refresh, for the velocity delta.
    pub prev_position: Point,
}

/// Estimator invariant: position and heading stay in range.
pub open spec fn tracking_wf(t: GpsWheeledTracking) -> bool {
    &&& point_within(t.data.position, 1_000_000_000)
    &&& angle_canonical(t.data.heading_mdeg as int)
    &&& point_within(t.prev_position, 1_000_000_000)
}

/// The default origin used when the very first reading fails.
pub open spec fn origin_point() -> Point {
    Point { x: 0, y: 0 }
}

/// The position after a refresh: the new reading when present, else the
/// previous value, pinned.
pub open spec fn refreshed_position(prev: Point, r: GpsReading) -> Point {
    if r.position is Some {
        r.position->0
    } else {
        prev
    }
}

/// The heading after a refresh: the new reading when present, else the
/// previous value, pinned.
pub open spec fn refreshed_heading(prev: int, r: GpsReading) -> int {
    if r.heading_mdeg is Some {
        r.heading_mdeg->0 as int
    } else {
        prev
    }
}

/// Elapsed time floored at one millisecond, so a zero or jittering clock
/// never blows up a velocity division.
pub open spec fn clamped_dt(dt_ms: int) -> int {
    if dt_ms < 1 {
        1
    } else {
        dt_ms
    }
}

/// Speed over ground derived from consecutive positions.
pub open spec fn linear_velocity_spec(new_pos: Point, prev_pos: Point, dt_ms: int) -> int {
    (dist_mm_spec(new_pos, prev_pos) * 1000) / clamped_dt(dt_ms)
}

/// Turn rate: the gyro reading when present, else the heading delta over
/// the elapsed time.
pub open spec fn angular_velocity_spec(
    r: GpsReading,
    new_heading: int,
    prev_heading: int,
    dt_ms: int,
) -> int {
    if r.angular_rate_mdeg_s is Some {
        r.angular_rate_mdeg_s->0 as int
    } else {
        (shortest_err_spec(new_heading, prev_heading) * 1000) / clamped_dt(dt_ms)
    }
}

/// The position published after feeding a whole sequence of readings.
pub open spec fn position_after(p: Point, rs: Seq<GpsReading>) -> Point
    decreases rs.len(),
{
    if rs.len() == 0 {
        p
    } else {
        position_after(refreshed_position(p, rs[0]), rs.drop_first())
    }
}

/// The heading published after feeding a whole sequence of readings.
pub open spec fn heading_after(h: int, rs: Seq<GpsReading>) -> int
    decreases rs.len(),
{
    if rs.len() == 0 {
        h
    } else {
        heading_after(refreshed_heading(h, rs[0]), rs.drop_first())
    }
}

/// Law: however many polls the position sensor fails in a row, the
/// published position stays pinned at the last good reading.
pub proof fn lemma_position_pinned_when_absent(p: Point, rs: Seq<GpsReading>)
    requires
        forall|i: int| 0 <= i < rs.len() ==> (#[trigger] rs[i]).position is None,
    ensures
        position_after(p, rs) == p,
    decreases rs.len(),
{
    if rs.len() > 0 {
        assert(forall|i: int|
            0 <= i < rs.drop_first().len() ==> (#[trigger] rs.drop_first()[i]).position
                is None);
        lemma_position_pinned_when_absent(p, rs.drop_first());
    }
}

/// Law: however many polls the heading sensor fails in a row, the
/// published heading stays pinned at the last good reading.
pub proof fn lemma_heading_pinned_when_absent(h: int, rs: Seq<GpsReading>)
    requires
        forall|i: int| 0 <= i < rs.len() ==> (#[trigger] rs[i]).heading_mdeg is None,
    ensures
        heading_after(h, rs) == h,
    decreases rs.len(),
{
    if rs.len() > 0 {
        assert(forall|i: int|
            0 <= i < rs.drop_first().len() ==> (#[trigger] rs.drop_first()[i]).heading_mdeg
                is None);
        lemma_heading_pinned_when_absent(h, rs.drop_first());
    }
}

/// How many wheel readings of a poll succeeded.
pub open spec fn present_count(s: Seq<Option<i64>>) -> int
    decreases s.len(),
{
    if s.len() == 0 {
        0
    } else {
        present_count(s.drop_last()) + if s.last() is Some {
            1int
        } else {
            0int
        }
    }
}

/// Sum of the wheel readings that succeeded.
pub open spec fn present_sum(s: Seq<Option<i64>>) -> int
    decreases s.len(),
{
    if s.len() == 0 {
        0
    } else {
        present_sum(s.drop_last()) + if s.last() is Some {
            s.last()->0 as int
        } else {
            0int
        }
    }
}

/// Average of the wheel readings that succeeded, rounded toward negative
/// infinity; zero when every wheel failed.
pub open spec fn average_travel_spec(s: Seq<Option<i64>>) -> int {
    if present_count(s) == 0 {
        0
    } else {
        present_sum(s) / present_count(s)
    }
}

impl GpsWheeledTracking {
    /// Takes the initial reading.  A failed position or heading seeds the
    /// default origin — construction itself never fails.
    pub fn new(initial: GpsReading) -> (t: GpsWheeledTracking)
        requires
            reading_wf(initial),
        ensures
            tracking_wf(t),
            t.data.position == refreshed_position(origin_point(), initial),
            t.data.heading_mdeg == refreshed_heading(0, initial),
            t.data.forward_travel_mm == 0,
            t.data.linear_velocity_mm_s == 0,
            t.data.angular_velocity_mdeg_s == 0,
            t.prev_position == t.data.position,
    {
        let position: Point = match initial.position {
            Some(p) => p,
            None => Point { x: 0, y: 0 },
        };
        let heading: i64 = match initial.heading_mdeg {
            Some(h) => h,
            None => 0,
        };
        GpsWheeledTracking {
            data: TrackingData {
                position,
                heading_mdeg: heading,
                forward_travel_mm: 0,
                linear_velocity_mm_s: 0,
                angular_velocity_mdeg_s: 0,
            },
            prev_position: position,
        }
    }

    /// One refresh tick, `dt_ms` after the previous one.  Failed parts of
    /// the reading pin the corresponding published values; velocities are
    /// recomputed from the elapsed time, floored at one millisecond.
    pub fn refresh(&mut self, reading: GpsReading, dt_ms: i64)
        requires
            tracking_wf(*old(self)),
            reading_wf(reading),
            0 <= dt_ms <= 10_000_000_000,
        ensures
            tracking_wf(*final(self)),
            final(self).data.position == refreshed_position(old(self).data.position, reading),
            final(self).data.heading_mdeg == refreshed_heading(
                old(self).data.heading_mdeg as int,
                reading,
            ),
            final(self).data.linear_velocity_mm_s == linear_velocity_spec(
                final(self).data.position,
                old(self).prev_position,
                dt_ms as int,
            ),
            final(self).data.angular_velocity_mdeg_s == angular_velocity_spec(
                reading,
                final(self).data.heading_mdeg as int,
                old(self).data.heading_mdeg as int,
                dt_ms as int,
            ),
            final(self).data.forward_travel_mm == old(self).data.forward_travel_mm,
            final(self).prev_position == final(self).data.position,
            reading.position is None ==> final(self).data.position == old(self).data.position,
            reading.heading_mdeg is None ==> final(self).data.heading_mdeg == old(
                self,
            ).data.heading_mdeg,
    {
        let dte: i64 = if dt_ms < 1 {
            1
        } else {
            dt_ms
        };
        let position: Point = match reading.position {
            Some(p) => p,
            None => self.data.position,
        };
        let heading: i64 = match reading.heading_mdeg {
            Some(h) => h,
            None => self.data.heading_mdeg,
        };
        let moved: i64 = distance_mm(position, self.prev_position);
        let linear_velocity: i64 = ((moved as u64 * 1000) / (dte as u64)) as i64;
        proof {
            vstd::arithmetic::div_mod::lemma_div_nonincreasing(
                (moved as int) * 1000,
                dte as int,
            );
            vstd::arithmetic::div_mod::lemma_div_pos_is_pos((moved as int) * 1000, dte as int);
        }
        let angular_velocity: i64 = match reading.angular_rate_mdeg_s {
            Some(w) => w,
            None => {
                let e: i64 = shortest_signed_error(heading, self.data.heading_mdeg);
                div_floor_i64(e * 1000, dte)
            },
        };
        self.data = TrackingData {
            position,
            heading_mdeg: heading,
            forward_travel_mm: self.data.forward_travel_mm,
            linear_velocity_mm_s: linear_velocity,
            angular_velocity_mdeg_s: angular_velocity,
        };
        self.prev_position = position;
    }

    /// Folds a poll of the forward wheels into the snapshot: the
    /// published forward travel becomes the average of the wheels that
    /// answered, or zero when none did.
    pub fn update_forward_travel(&mut self, travels: &Vec<Option<i64>>)
        requires
            tracking_wf(*old(self)),
            travels@.len() <= 16,
            forall|i: int|
                0 <= i < travels@.len() ==> (#[trigger] travels@[i] matches Some(t)
                    ==> -WHEEL_TRAVEL_LIMIT_MM <= t <= WHEEL_TRAVEL_LIMIT_MM),
        ensures
            tracking_wf(*final(self)),
            final(self).data.forward_travel_mm == average_travel_spec(travels@),
            final(self).data.position == old(self).data.position,
            final(self).data.heading_mdeg == old(self).data.heading_mdeg,
            final(self).data.linear_velocity_mm_s == old(self).data.linear_velocity_mm_s,
            final(self).data.angular_velocity_mdeg_s == old(self).data.angular_velocity_mdeg_s,
            final(self).prev_position == old(self).prev_position,
    {
        let mut sum: i64 = 0;
        let mut cnt: i64 = 0;
        let mut i: usize = 0;
        while i < travels.len()
            invariant
                0 <= i as int <= travels@.len(),
                travels@.len() <= 16,
                forall|j: int|
                    0 <= j < travels@.len() ==> (#[trigger] travels@[j] matches Some(t)
                        ==> -WHEEL_TRAVEL_LIMIT_MM <= t <= WHEEL_TRAVEL_LIMIT_MM),
                cnt == present_count(travels@.take(i as int)),
                sum == present_sum(travels@.take(i as int)),
                0 <= cnt <= i as int,
                -(i as int) * WHEEL_TRAVEL_LIMIT_MM <= sum <= (i as int) * WHEEL_TRAVEL_LIMIT_MM,
            decreases travels@.len() - i as int,
        {
            proof {
                assert(travels@.take(i as int + 1).drop_last() =~= travels@.take(i as int));
                assert(travels@.take(i as int + 1).last() == travels@[i as int]);
            }
            match travels[i] {
                Some(t) => {
                    sum = sum + t;
                    cnt = cnt + 1;
                },
                None => {},
            }
            i = i + 1;
        }
        proof {
            assert(travels@.take(travels@.len() as int) =~= travels@);
        }
        let travel: i64 = if cnt == 0 {
            0
        } else {
            div_floor_i64(sum, cnt)
        };
        proof {
            if cnt != 0 {
                vstd::arithmetic::div_mod::lemma_div_is_ordered(
                    sum as int,
                    16 * WHEEL_TRAVEL_LIMIT_MM as int,
                    cnt as int,
                );
            }
        }
        self.data = TrackingData {
            position: self.data.position,
            heading_mdeg: self.data.heading_mdeg,
            forward_travel_mm: travel,
            linear_velocity_mm_s: self.data.linear_velocity_mm_s,
            angular_velocity_mdeg_s: self.data.angular_velocity_mdeg_s,
        };
    }

    /// The latest published snapshot, whole.
    pub fn snapshot(&self) -> (d: TrackingData)
        ensures
            d == self.data,
    {
        self.data
    }

    /// Latest published position.
    pub fn position(&self) -> (p: Point)
        ensures
            p == self.data.position,
    {
        self.data.position
    }

    /// Latest published heading, canonical millidegrees.
    pub fn heading(&self) -> (h: i64)
        ensures
            h == self.data.heading_mdeg,
    {
        self.data.heading_mdeg
    }

    /// Latest published speed over ground, millimeters per second.
    pub fn linear_velocity(&self) -> (v: i64)
        ensures
            v == self.data.linear_velocity_mm_s,
    {
        self.data.linear_velocity_mm_s
    }

    /// Latest published turn rate, millidegrees per second.
    pub fn angular_velocity(&self) -> (w: i64)
        ensures
            w == self.data.angular_velocity_mdeg_s,
    {
        self.data.angular_velocity_mdeg_s
    }

    /// Latest published forward travel, millimeters.
    pub fn forward_travel(&self) -> (d: i64)
        ensures
            d == self.data.forward_travel_mm,
    {
        self.data.forward_travel_mm
    }
}

} // verus!
