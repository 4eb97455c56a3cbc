//! The axis-aligned box: slab test and face lookup.
//!
//! A ray `origin + t * direction` crosses the two planes that bound the box
//! along one axis at two parameters, the quotients of `(min - origin)` and
//! `(max - origin)` by the direction's component. The caller computes the six
//! quotients. A zero component yields infinities: one of each sign where the
//! origin lies between the planes, twice the same where it lies beside them,
//! and no number at all for a plane that the origin lies in. From there on
//! the test only compares, and that part is decided here: the three parameter
//! intervals are intersected, a candidate is picked, and the candidate is
//! reported where it lies strictly inside the caller's range.
use vstd::prelude::*;
use crate::scalar::Scalar;
use crate::surface::{near_zero, spec_near_zero, spec_strictly_within, strictly_within};

verus! {

/// A parameter interval, from where the ray enters to where it leaves.
#[derive(Clone, Copy, Debug)]
pub struct Span {
    pub lo: Scalar,
    pub hi: Scalar,
}

/// The parameters at which a ray crosses the six planes of a box: for each
/// axis the plane through the `min` corner, then the one through `max`.
#[derive(Clone, Copy, Debug)]
pub struct Crossings {
    pub x_min: Scalar,
    pub x_max: Scalar,
    pub y_min: Scalar,
    pub y_max: Scalar,
    pub z_min: Scalar,
    pub z_max: Scalar,
}

/// A face of the box, named by the corner whose plane it lies in and by its
/// axis.
#[derive(Clone, Copy, Debug, PartialEq, Eq, Structural)]
pub enum Face {
    MinX,
    MaxX,
    MinY,
    MaxY,
    MinZ,
    MaxZ,
}

/// The signed distances of a point from the six planes of a box, each the
/// point's coordinate less the plane's.
#[derive(Clone, Copy, Debug)]
pub struct Offsets {
    pub x_min: Scalar,
    pub x_max: Scalar,
    pub y_min: Scalar,
    pub y_max: Scalar,
    pub z_min: Scalar,
    pub z_max: Scalar,
}

impl Span {
    /// The interval between two crossings. Where both are numbers it runs
    /// from the lesser to the greater. Where one is not a number, the origin
    /// lies in a plane of the slab and the ray runs along it: the ray never
    /// leaves the slab, and the interval is the whole line.
    pub open spec fn spec_between(a: Scalar, b: Scalar) -> Span {
        if a.is_nan() || b.is_nan() {
            Span { lo: Scalar::spec_neg_infinity(), hi: Scalar::infinity() }
        } else if a.gt(b) {
            Span { lo: b, hi: a }
        } else {
            Span { lo: a, hi: b }
        }
    }

    /// Whether one interval begins after the other has ended.
    pub open spec fn spec_misses(self, other: Span) -> bool {
        self.lo.gt(other.hi) || other.lo.gt(self.hi)
    }

    /// The later of the two entries and the earlier of the two exits.
    pub open spec fn spec_meet(self, other: Span) -> Span {
        Span {
            lo: if other.lo.gt(self.lo) {
                other.lo
            } else {
                self.lo
            },
            hi: if other.hi.lt(self.hi) {
                other.hi
            } else {
                self.hi
            },
        }
    }

    /// The parameter that is reported for this interval: the entry where it
    /// lies beyond `t_min`, else the exit.
    pub open spec fn spec_candidate(self, t_min: Scalar) -> Scalar {
        if self.lo.gt(t_min) {
            self.lo
        } else {
            self.hi
        }
    }

    /// Whether both ends are numbers.
    pub open spec fn is_numeric(self) -> bool {
        !self.lo.is_nan() && !self.hi.is_nan()
    }

    /// Whether the interval is the whole line: the ray runs along this axis
    /// between the two planes and never leaves the slab.
    pub open spec fn is_unbounded(self) -> bool {
        self.lo == Scalar::spec_neg_infinity() && self.hi == Scalar::infinity()
    }

    /// The interval between two crossings. Its ends are always numbers, the
    /// first not greater than the second.
    #[verifier::when_used_as_spec(spec_between)]
    pub fn between(a: Scalar, b: Scalar) -> (s: Span)
        ensures
            s == Span::spec_between(a, b),
            s.is_numeric(),
            s.lo.rank() <= s.hi.rank(),
    {
        if a.is_nan() || b.is_nan() {
            Span { lo: Scalar::from_bits(0xFFF0_0000_0000_0000), hi: Scalar::infinity() }
        } else if a.gt(b) {
            Span { lo: b, hi: a }
        } else {
            Span { lo: a, hi: b }
        }
    }

    /// Whether the two intervals have no parameter in common.
    #[verifier::when_used_as_spec(spec_misses)]
    pub fn misses(self, other: Span) -> (r: bool)
        ensures
            r == self.spec_misses(other),
    {
        self.lo.gt(other.hi) || other.lo.gt(self.hi)
    }

    /// The intersection of two intervals that do not miss each other.
    #[verifier::when_used_as_spec(spec_meet)]
    pub fn meet(self, other: Span) -> (s: Span)
        ensures
            s == self.spec_meet(other),
    {
        let lo = if other.lo.gt(self.lo) {
            other.lo
        } else {
            self.lo
        };
        let hi = if other.hi.lt(self.hi) {
            other.hi
        } else {
            self.hi
        };
        Span { lo, hi }
    }

    /// The parameter that is reported for this interval.
    #[verifier::when_used_as_spec(spec_candidate)]
    pub fn candidate(self, t_min: Scalar) -> (t: Scalar)
        ensures
            t == self.spec_candidate(t_min),
    {
        if self.lo.gt(t_min) {
            self.lo
        } else {
            self.hi
        }
    }
}

impl Crossings {
    /// The interval along the x axis.
    pub open spec fn x(self) -> Span {
        Span::between(self.x_min, self.x_max)
    }

    /// The interval along the y axis.
    pub open spec fn y(self) -> Span {
        Span::between(self.y_min, self.y_max)
    }

    /// The interval along the z axis.
    pub open spec fn z(self) -> Span {
        Span::between(self.z_min, self.z_max)
    }

    /// The parameters for which the ray is inside the box: the x interval
    /// narrowed by y, then by z, and nothing as soon as one narrowing finds
    /// the intervals apart.
    pub open spec fn spec_inside(self) -> Option<Span> {
        if self.x().misses(self.y()) {
            None
        } else if self.x().meet(self.y()).misses(self.z()) {
            None
        } else {
            Some(self.x().meet(self.y()).meet(self.z()))
        }
    }

    /// The parameter at which the box is hit strictly between `t_min` and
    /// `t_max`: the candidate of the inside interval where it lies in that
    /// open range, and nothing otherwise.
    pub open spec fn spec_hit(self, t_min: Scalar, t_max: Scalar) -> Option<Scalar> {
        match self.spec_inside() {
            None => None,
            Some(span) => {
                let t = span.candidate(t_min);
                if spec_strictly_within(t, t_min, t_max) {
                    Some(t)
                } else {
                    None
                }
            },
        }
    }

    /// The parameters for which the ray is inside the box.
    #[verifier::when_used_as_spec(spec_inside)]
    pub fn inside(self) -> (r: Option<Span>)
        ensures
            r == self.spec_inside(),
    {
        let x = Span::between(self.x_min, self.x_max);
        let y = Span::between(self.y_min, self.y_max);
        if x.misses(y) {
            return None;
        }
        let xy = x.meet(y);
        let z = Span::between(self.z_min, self.z_max);
        if xy.misses(z) {
            return None;
        }
        Some(xy.meet(z))
    }

    /// The slab test: the parameter at which the box is hit strictly between
    /// `t_min` and `t_max`, if it is. A parameter equal to either end is not
    /// reported, and what is reported is always a number.
    #[verifier::when_used_as_spec(spec_hit)]
    pub fn hit(self, t_min: Scalar, t_max: Scalar) -> (r: Option<Scalar>)
        ensures
            r == self.spec_hit(t_min, t_max),
    {
        match self.inside() {
            None => None,
            Some(span) => {
                let t = span.candidate(t_min);
                if strictly_within(t, t_min, t_max) {
                    Some(t)
                } else {
                    None
                }
            },
        }
    }
}

/// The smaller of two ranks.
pub open spec fn lesser(a: int, b: int) -> int {
    if a <= b {
        a
    } else {
        b
    }
}

/// The greater of two ranks.
pub open spec fn greater(a: int, b: int) -> int {
    if a >= b {
        a
    } else {
        b
    }
}

impl Crossings {
    /// The rank at which the ray has entered all three slabs: the latest of
    /// the three entries.
    pub open spec fn entry_rank(self) -> int {
        greater(greater(self.x().lo.rank(), self.y().lo.rank()), self.z().lo.rank())
    }

    /// The rank at which the ray leaves the first of the three slabs: the
    /// earliest of the three exits.
    pub open spec fn exit_rank(self) -> int {
        lesser(lesser(self.x().hi.rank(), self.y().hi.rank()), self.z().hi.rank())
    }

    /// The rank of the parameter that is held against the range: the entry
    /// where it lies beyond `t_min`, else the exit.
    pub open spec fn candidate_rank(self, t_min: Scalar) -> int {
        if self.entry_rank() > t_min.rank() {
            self.entry_rank()
        } else {
            self.exit_rank()
        }
    }
}

/// Whether two crossings are the same infinity: the ray runs along the slab
/// of this axis and outside it.
pub open spec fn same_infinity(a: Scalar, b: Scalar) -> bool {
    a.is_infinite() && a == b
}

/// The interval of each axis runs between numbers, the first not greater
/// than the second, whatever the crossings are.
pub proof fn lemma_intervals_are_numeric(c: Crossings)
    ensures
        c.x().is_numeric() && c.x().lo.rank() <= c.x().hi.rank(),
        c.y().is_numeric() && c.y().lo.rank() <= c.y().hi.rank(),
        c.z().is_numeric() && c.z().lo.rank() <= c.z().hi.rank(),
{
}

/// The ray is inside the box exactly when the latest entry is not after the
/// earliest exit, and the inside interval runs from the one to the other.
pub proof fn lemma_inside_is_intersection(c: Crossings)
    ensures
        c.inside() is Some <==> c.entry_rank() <= c.exit_rank(),
        c.inside() matches Some(span) ==> {
            &&& span.is_numeric()
            &&& span.lo.rank() == c.entry_rank()
            &&& span.hi.rank() == c.exit_rank()
        },
{
}

/// A reported parameter is a number strictly between `t_min` and `t_max`,
/// and it is one of the six crossings.
pub proof fn lemma_hit_is_a_crossing_in_range(c: Crossings, t_min: Scalar, t_max: Scalar)
    ensures
        c.hit(t_min, t_max) matches Some(t) ==> {
            &&& !t.is_nan()
            &&& !t_min.is_nan()
            &&& !t_max.is_nan()
            &&& t_min.rank() < t.rank() < t_max.rank()
            &&& (t == c.x_min || t == c.x_max || t == c.y_min || t == c.y_max || t == c.z_min || t
                == c.z_max)
        },
{
    lemma_inside_is_intersection(c);
}

/// A hit is reported exactly when both ends of the range are numbers, the
/// ray is inside the box at some parameter, and the candidate lies strictly
/// between `t_min` and `t_max`; the candidate is the entry where that is
/// beyond `t_min`, else the exit.
pub proof fn lemma_hit_is_candidate_strictly_in_range(c: Crossings, t_min: Scalar, t_max: Scalar)
    ensures
        c.hit(t_min, t_max) is Some <==> {
            &&& !t_min.is_nan()
            &&& !t_max.is_nan()
            &&& c.entry_rank() <= c.exit_rank()
            &&& t_min.rank() < c.candidate_rank(t_min) < t_max.rank()
        },
        c.hit(t_min, t_max) matches Some(t) ==> !t.is_nan() && t.rank() == c.candidate_rank(
            t_min,
        ),
{
    lemma_inside_is_intersection(c);
}

/// A ray that runs straight at a face from outside hits the box where it
/// crosses that face's plane. Such a ray moves along one axis only, so that
/// the other two intervals are the whole line; where the nearer crossing on
/// its own axis lies strictly between `t_min` and `t_max`, that crossing is
/// reported.
pub proof fn lemma_perpendicular_ray_hits_the_nearer_plane(
    c: Crossings,
    t_min: Scalar,
    t_max: Scalar,
)
    ensures
        c.y().is_unbounded() && c.z().is_unbounded() && c.x().lo.gt(t_min) && c.x().lo.lt(t_max)
            ==> c.hit(t_min, t_max) == Some(c.x().lo),
        c.x().is_unbounded() && c.z().is_unbounded() && c.y().lo.gt(t_min) && c.y().lo.lt(t_max)
            ==> c.hit(t_min, t_max) == Some(c.y().lo),
        c.x().is_unbounded() && c.y().is_unbounded() && c.z().lo.gt(t_min) && c.z().lo.lt(t_max)
            ==> c.hit(t_min, t_max) == Some(c.z().lo),
{
}

/// A ray that runs along a slab and outside it hits nothing. Where the ray
/// does not move along an axis and its origin lies beside the box on that
/// axis, both crossings of the axis are the same infinity; no hit is then
/// reported, whatever the other crossings and the range are, numbers or not.
pub proof fn lemma_ray_beside_a_slab_never_hits(c: Crossings, t_min: Scalar, t_max: Scalar)
    requires
        same_infinity(c.x_min, c.x_max) || same_infinity(c.y_min, c.y_max) || same_infinity(
            c.z_min,
            c.z_max,
        ),
    ensures
        c.hit(t_min, t_max) is None,
{
    lemma_hit_is_candidate_strictly_in_range(c, t_min, t_max);
}

/// A ray that misses the box along one axis hits nothing: if, on any axis,
/// the ray has left the slab by `t_min` or enters it no earlier than `t_max`,
/// no hit is reported, whatever the other two axes say.
pub proof fn lemma_miss_on_one_axis(c: Crossings, t_min: Scalar, t_max: Scalar)
    requires
        ({
            ||| c.x().hi.le(t_min)
            ||| c.x().lo.ge(t_max)
            ||| c.y().hi.le(t_min)
            ||| c.y().lo.ge(t_max)
            ||| c.z().hi.le(t_min)
            ||| c.z().lo.ge(t_max)
        }),
    ensures
        c.hit(t_min, t_max) is None,
{
    lemma_hit_is_candidate_strictly_in_range(c, t_min, t_max);
}

/// Two axes whose intervals have no parameter in common leave no hit either.
pub proof fn lemma_miss_between_axes(c: Crossings, t_min: Scalar, t_max: Scalar)
    requires
        c.x().misses(c.y()) || c.x().misses(c.z()) || c.y().misses(c.z()),
    ensures
        c.hit(t_min, t_max) is None,
{
    lemma_inside_is_intersection(c);
}

impl Offsets {
    /// The face the point rests on: the first, in the order of [`Face`], whose
    /// plane it touches.
    pub open spec fn spec_face(self) -> Option<Face> {
        if spec_near_zero(self.x_min) {
            Some(Face::MinX)
        } else if spec_near_zero(self.x_max) {
            Some(Face::MaxX)
        } else if spec_near_zero(self.y_min) {
            Some(Face::MinY)
        } else if spec_near_zero(self.y_max) {
            Some(Face::MaxY)
        } else if spec_near_zero(self.z_min) {
            Some(Face::MinZ)
        } else if spec_near_zero(self.z_max) {
            Some(Face::MaxZ)
        } else {
            None
        }
    }

    /// The face the point rests on, if it rests on any.
    #[verifier::when_used_as_spec(spec_face)]
    pub fn face(self) -> (f: Option<Face>)
        ensures
            f == self.spec_face(),
    {
        if near_zero(self.x_min) {
            Some(Face::MinX)
        } else if near_zero(self.x_max) {
            Some(Face::MaxX)
        } else if near_zero(self.y_min) {
            Some(Face::MinY)
        } else if near_zero(self.y_max) {
            Some(Face::MaxY)
        } else if near_zero(self.z_min) {
            Some(Face::MinZ)
        } else if near_zero(self.z_max) {
            Some(Face::MaxZ)
        } else {
            None
        }
    }
}

/// The outward normal of a face as three integer components; the zero vector
/// for a point that rests on no face.
pub open spec fn spec_outward(face: Option<Face>) -> (int, int, int) {
    match face {
        Some(Face::MinX) => (-1, 0, 0),
        Some(Face::MaxX) => (1, 0, 0),
        Some(Face::MinY) => (0, -1, 0),
        Some(Face::MaxY) => (0, 1, 0),
        Some(Face::MinZ) => (0, 0, -1),
        Some(Face::MaxZ) => (0, 0, 1),
        None => (0, 0, 0),
    }
}

/// The outward normal of a face; the zero vector for a point that rests on no
/// face.
pub fn outward(face: Option<Face>) -> (n: (i8, i8, i8))
    ensures
        (n.0 as int, n.1 as int, n.2 as int) == spec_outward(face),
{
    match face {
        Some(Face::MinX) => (-1, 0, 0),
        Some(Face::MaxX) => (1, 0, 0),
        Some(Face::MinY) => (0, -1, 0),
        Some(Face::MaxY) => (0, 1, 0),
        Some(Face::MinZ) => (0, 0, -1),
        Some(Face::MaxZ) => (0, 0, 1),
        None => (0, 0, 0),
    }
}

/// The normal of a point that rests on a face is a unit vector along one axis.
pub proof fn lemma_outward_is_axis_aligned(face: Option<Face>)
    ensures
        ({
            let n = spec_outward(face);
            n.0 * n.0 + n.1 * n.1 + n.2 * n.2 == (if face is Some {
                1int
            } else {
                0int
            })
        }),
{
}

} // verus!
