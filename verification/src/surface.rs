//! What every surface shares: the tolerance test, the two kinds of parameter
//! range, and the rule that turns a normal towards the ray.
use vstd::prelude::*;
use crate::scalar::Scalar;

verus! {

/// Whether a signed distance is within the tolerance of zero: its absolute
/// value is less than `1e-6`.
pub open spec fn spec_near_zero(offset: Scalar) -> bool {
    offset.abs().lt(Scalar::epsilon())
}

/// Whether `t` lies strictly between `t_min` and `t_max`.
pub open spec fn spec_strictly_within(t: Scalar, t_min: Scalar, t_max: Scalar) -> bool {
    t.gt(t_min) && t.lt(t_max)
}

/// Whether `t` lies between `t_min` and `t_max`, the ends included.
pub open spec fn spec_within(t: Scalar, t_min: Scalar, t_max: Scalar) -> bool {
    t.ge(t_min) && t.le(t_max)
}

/// Whether a surface is met from outside: the dot product of the ray's
/// direction with the outward normal is negative.
pub open spec fn spec_front_face(dot: Scalar) -> bool {
    dot.lt(Scalar::zero())
}

/// Whether a signed distance is within the tolerance of zero.
#[verifier::when_used_as_spec(spec_near_zero)]
pub fn near_zero(offset: Scalar) -> (r: bool)
    ensures
        r == spec_near_zero(offset),
        r == (!offset.is_nan() && -Scalar::epsilon().rank() < offset.rank()
            < Scalar::epsilon().rank()),
{
    offset.abs().lt(Scalar::epsilon())
}

/// Whether `t` lies strictly between `t_min` and `t_max`.
#[verifier::when_used_as_spec(spec_strictly_within)]
pub fn strictly_within(t: Scalar, t_min: Scalar, t_max: Scalar) -> (r: bool)
    ensures
        r == spec_strictly_within(t, t_min, t_max),
{
    t.gt(t_min) && t.lt(t_max)
}

/// Whether `t` lies between `t_min` and `t_max`, the ends included.
#[verifier::when_used_as_spec(spec_within)]
pub fn within(t: Scalar, t_min: Scalar, t_max: Scalar) -> (r: bool)
    ensures
        r == spec_within(t, t_min, t_max),
{
    t.ge(t_min) && t.le(t_max)
}

/// The front-face rule. Given the dot product of the ray's direction with a
/// surface's outward normal, says whether the ray meets the surface from
/// outside. The reported normal is the outward normal where it does, and the
/// outward normal negated where it does not, so that it always opposes the
/// ray.
#[verifier::when_used_as_spec(spec_front_face)]
pub fn front_face(dot: Scalar) -> (r: bool)
    ensures
        r == spec_front_face(dot),
        r == (!dot.is_nan() && dot.rank() < 0),
{
    dot.lt(Scalar::zero())
}

} // verus!
