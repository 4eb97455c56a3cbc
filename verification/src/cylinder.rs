//! The capped cylinder: body against caps.
//!
//! The cylinder stands on the plane `y = y_bottom`, reaches up to
//! `y = y_top`, and has its axis parallel to y. A ray can meet it in four
//! places: at the two roots of the quadratic of the infinite cylinder, and
//! where it crosses the planes of the two caps. The caller computes for each
//! root the height of its point, and for each cap crossing the squared
//! distance of its point from the axis. Which of the four is reported, if
//! any, is decided here.
use vstd::prelude::*;
use crate::scalar::Scalar;
use crate::surface::{near_zero, spec_near_zero, spec_strictly_within, strictly_within};

verus! {

/// Everything the decision reads.
#[derive(Clone, Copy, Debug)]
pub struct Probe {
    /// The discriminant of the body's quadratic.
    pub discriminant: Scalar,
    /// The root with the square root subtracted, and the height of its point.
    pub t0: Scalar,
    pub y0: Scalar,
    /// The root with the square root added, and the height of its point.
    pub t1: Scalar,
    pub y1: Scalar,
    /// Where the ray crosses the plane of the top cap, and the squared
    /// distance of that point from the axis.
    pub t_top: Scalar,
    pub reach_top: Scalar,
    /// The same for the bottom cap.
    pub t_bottom: Scalar,
    pub reach_bottom: Scalar,
    /// The heights of the two caps.
    pub y_bottom: Scalar,
    pub y_top: Scalar,
    /// The radius squared.
    pub radius_squared: Scalar,
}

/// The part of the cylinder that a hit lies on.
#[derive(Clone, Copy, Debug, PartialEq, Eq, Structural)]
pub enum Part {
    Body,
    Cap,
}

/// A reported hit: its parameter and the part it lies on.
#[derive(Clone, Copy, Debug)]
pub struct Strike {
    pub t: Scalar,
    pub part: Part,
}

impl Probe {
    /// Whether a root counts: the quadratic has real roots, the point's
    /// height is strictly between the caps, and the parameter strictly inside
    /// the range. A point level with a cap is left to the cap.
    pub open spec fn body_counts(self, t: Scalar, y: Scalar, t_min: Scalar, t_max: Scalar) -> bool {
        &&& self.discriminant.ge(Scalar::zero())
        &&& y.gt(self.y_bottom)
        &&& y.lt(self.y_top)
        &&& spec_strictly_within(t, t_min, t_max)
    }

    /// Whether a cap crossing counts: the parameter is strictly inside the
    /// range and the point no further from the axis than the radius.
    pub open spec fn cap_counts(self, t: Scalar, reach: Scalar, t_min: Scalar, t_max: Scalar) -> bool {
        spec_strictly_within(t, t_min, t_max) && reach.le(self.radius_squared)
    }

    /// The nearer of the roots that count; infinity where none does.
    pub open spec fn spec_body(self, t_min: Scalar, t_max: Scalar) -> Scalar {
        let first = if self.body_counts(self.t0, self.y0, t_min, t_max) {
            self.t0
        } else {
            Scalar::infinity()
        };
        if self.body_counts(self.t1, self.y1, t_min, t_max) && self.t1.lt(first) {
            self.t1
        } else {
            first
        }
    }

    /// The nearer of the cap crossings that count; infinity where none does.
    pub open spec fn spec_caps(self, t_min: Scalar, t_max: Scalar) -> Scalar {
        let top = if self.cap_counts(self.t_top, self.reach_top, t_min, t_max) {
            self.t_top
        } else {
            Scalar::infinity()
        };
        if self.cap_counts(self.t_bottom, self.reach_bottom, t_min, t_max) && self.t_bottom.lt(top) {
            self.t_bottom
        } else {
            top
        }
    }

    /// The hit: the body's parameter where it is less than the caps', else
    /// the caps'; none where that is infinite.
    pub open spec fn spec_hit(self, t_min: Scalar, t_max: Scalar) -> Option<Strike> {
        let body = self.spec_body(t_min, t_max);
        let caps = self.spec_caps(t_min, t_max);
        if body.lt(caps) {
            if body.is_infinite() {
                None
            } else {
                Some(Strike { t: body, part: Part::Body })
            }
        } else {
            if caps.is_infinite() {
                None
            } else {
                Some(Strike { t: caps, part: Part::Cap })
            }
        }
    }

    fn root_counts(self, t: Scalar, y: Scalar, t_min: Scalar, t_max: Scalar) -> (r: bool)
        ensures
            r == self.body_counts(t, y, t_min, t_max),
    {
        self.discriminant.ge(Scalar::zero()) && y.gt(self.y_bottom) && y.lt(self.y_top)
            && strictly_within(t, t_min, t_max)
    }

    fn crossing_counts(self, t: Scalar, reach: Scalar, t_min: Scalar, t_max: Scalar) -> (r: bool)
        ensures
            r == self.cap_counts(t, reach, t_min, t_max),
    {
        strictly_within(t, t_min, t_max) && reach.le(self.radius_squared)
    }

    /// The nearer of the roots that count; infinity where none does.
    #[verifier::when_used_as_spec(spec_body)]
    pub fn body(self, t_min: Scalar, t_max: Scalar) -> (t: Scalar)
        ensures
            t == self.spec_body(t_min, t_max),
    {
        let mut best = Scalar::infinity();
        if self.root_counts(self.t0, self.y0, t_min, t_max) {
            best = self.t0;
        }
        if self.root_counts(self.t1, self.y1, t_min, t_max) && self.t1.lt(best) {
            best = self.t1;
        }
        best
    }

    /// The nearer of the cap crossings that count; infinity where none does.
    #[verifier::when_used_as_spec(spec_caps)]
    pub fn caps(self, t_min: Scalar, t_max: Scalar) -> (t: Scalar)
        ensures
            t == self.spec_caps(t_min, t_max),
    {
        let mut best = Scalar::infinity();
        if self.crossing_counts(self.t_top, self.reach_top, t_min, t_max) {
            best = self.t_top;
        }
        if self.crossing_counts(self.t_bottom, self.reach_bottom, t_min, t_max)
            && self.t_bottom.lt(best) {
            best = self.t_bottom;
        }
        best
    }

    /// The nearest intersection of the ray with the cylinder strictly between
    /// `t_min` and `t_max`, if there is one. Where a root and a cap crossing
    /// share the parameter, the cap is reported.
    #[verifier::when_used_as_spec(spec_hit)]
    pub fn hit(self, t_min: Scalar, t_max: Scalar) -> (r: Option<Strike>)
        ensures
            r == self.spec_hit(t_min, t_max),
    {
        let body = self.body(t_min, t_max);
        let caps = self.caps(t_min, t_max);
        let t = if body.lt(caps) {
            body
        } else {
            caps
        };
        if t.is_infinite() {
            return None;
        }
        let part = if t.equals(caps) {
            Part::Cap
        } else {
            Part::Body
        };
        Some(Strike { t, part })
    }
}

/// The hit is the nearest of the places that count. A reported parameter is
/// one of the four, counts, and is not beyond any other that counts; on the
/// body it is strictly nearer than every cap crossing that counts. Nothing is
/// reported exactly when none of the four counts.
pub proof fn lemma_hit_is_nearest_that_counts(p: Probe, t_min: Scalar, t_max: Scalar)
    ensures
        p.hit(t_min, t_max) is None <==> {
            &&& !p.body_counts(p.t0, p.y0, t_min, t_max)
            &&& !p.body_counts(p.t1, p.y1, t_min, t_max)
            &&& !p.cap_counts(p.t_top, p.reach_top, t_min, t_max)
            &&& !p.cap_counts(p.t_bottom, p.reach_bottom, t_min, t_max)
        },
        p.hit(t_min, t_max) matches Some(s) ==> {
            &&& !s.t.is_nan()
            &&& t_min.rank() < s.t.rank() < t_max.rank()
            &&& p.body_counts(p.t0, p.y0, t_min, t_max) ==> s.t.rank() <= p.t0.rank()
            &&& p.body_counts(p.t1, p.y1, t_min, t_max) ==> s.t.rank() <= p.t1.rank()
            &&& p.cap_counts(p.t_top, p.reach_top, t_min, t_max) ==> s.t.rank() <= p.t_top.rank()
            &&& p.cap_counts(p.t_bottom, p.reach_bottom, t_min, t_max) ==> s.t.rank()
                <= p.t_bottom.rank()
        },
        p.hit(t_min, t_max) matches Some(s) ==> (s.part == Part::Body ==> {
            &&& (s.t == p.t0 && p.body_counts(p.t0, p.y0, t_min, t_max)) || (s.t == p.t1
                && p.body_counts(p.t1, p.y1, t_min, t_max))
            &&& p.cap_counts(p.t_top, p.reach_top, t_min, t_max) ==> s.t.rank() < p.t_top.rank()
            &&& p.cap_counts(p.t_bottom, p.reach_bottom, t_min, t_max) ==> s.t.rank()
                < p.t_bottom.rank()
        }),
        p.hit(t_min, t_max) matches Some(s) ==> (s.part == Part::Cap ==> {
            ||| (s.t == p.t_top && p.cap_counts(p.t_top, p.reach_top, t_min, t_max))
            ||| (s.t == p.t_bottom && p.cap_counts(p.t_bottom, p.reach_bottom, t_min, t_max))
        }),
{
}

/// A ray that strikes the top cap before anything else is reported there.
/// Where the crossing of the top cap counts and no other place that counts
/// is nearer, the hit is that crossing, on a cap; and with the hit point
/// level with the top cap, the normal points straight up.
pub proof fn lemma_top_cap_struck_first_points_up(
    p: Probe,
    t_min: Scalar,
    t_max: Scalar,
    offset_from_top: Scalar,
)
    requires
        p.cap_counts(p.t_top, p.reach_top, t_min, t_max),
        p.body_counts(p.t0, p.y0, t_min, t_max) ==> p.t_top.le(p.t0),
        p.body_counts(p.t1, p.y1, t_min, t_max) ==> p.t_top.le(p.t1),
        p.cap_counts(p.t_bottom, p.reach_bottom, t_min, t_max) ==> p.t_top.le(p.t_bottom),
        spec_near_zero(offset_from_top),
    ensures
        p.hit(t_min, t_max) == Some(Strike { t: p.t_top, part: Part::Cap }),
        spec_cap_normal_y(offset_from_top) == 1,
{
}

/// The y component of a cap's normal: 1 where the hit point's height less the
/// top cap's is within the tolerance of zero, else -1.
pub open spec fn spec_cap_normal_y(offset_from_top: Scalar) -> int {
    if spec_near_zero(offset_from_top) {
        1
    } else {
        -1
    }
}

/// The normal of a hit on a cap, from the hit point's height less the top
/// cap's: straight up on the top cap, straight down otherwise.
pub fn cap_normal(offset_from_top: Scalar) -> (n: (i8, i8, i8))
    ensures
        n.0 == 0,
        n.1 == spec_cap_normal_y(offset_from_top),
        n.2 == 0,
{
    if near_zero(offset_from_top) {
        (0, 1, 0)
    } else {
        (0, -1, 0)
    }
}

} // verus!
