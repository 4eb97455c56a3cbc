//! The sphere: which root of the quadratic is reported.
//!
//! Substituting the ray into `|P - center|^2 = radius^2` gives a quadratic in
//! the parameter. The caller computes its discriminant and, by the standard
//! formula, the two roots: `near` with the square root subtracted, `far` with
//! it added. With a negative discriminant the square root, and so both roots,
//! are not numbers; the decision below never looks at them then.
use vstd::prelude::*;
use crate::scalar::Scalar;
use crate::surface::{spec_strictly_within, strictly_within};

verus! {

/// The discriminant of the quadratic and its two roots.
#[derive(Clone, Copy, Debug)]
pub struct Roots {
    pub discriminant: Scalar,
    pub near: Scalar,
    pub far: Scalar,
}

impl Roots {
    /// The parameter at which the sphere is hit strictly between `t_min` and
    /// `t_max`: none where the discriminant is negative; else the near root
    /// where it lies in the range; else the far root where that does; else
    /// none. A discriminant of zero is a tangent ray, whose single root is
    /// reported like any other.
    pub open spec fn spec_hit(self, t_min: Scalar, t_max: Scalar) -> Option<Scalar> {
        if self.discriminant.lt(Scalar::zero()) {
            None
        } else if spec_strictly_within(self.near, t_min, t_max) {
            Some(self.near)
        } else if spec_strictly_within(self.far, t_min, t_max) {
            Some(self.far)
        } else {
            None
        }
    }

    /// The nearest intersection of the ray with the sphere strictly between
    /// `t_min` and `t_max`, if there is one.
    #[verifier::when_used_as_spec(spec_hit)]
    pub fn hit(self, t_min: Scalar, t_max: Scalar) -> (r: Option<Scalar>)
        ensures
            r == self.spec_hit(t_min, t_max),
    {
        if self.discriminant.lt(Scalar::zero()) {
            None
        } else if strictly_within(self.near, t_min, t_max) {
            Some(self.near)
        } else if strictly_within(self.far, t_min, t_max) {
            Some(self.far)
        } else {
            None
        }
    }
}

/// A ray that meets the sphere from outside is reported at its near root:
/// where the quadratic has real roots and the near one lies strictly inside
/// the range, that root is the hit, whatever the far one is.
pub proof fn lemma_near_root_in_range_is_reported(roots: Roots, t_min: Scalar, t_max: Scalar)
    requires
        roots.discriminant.ge(Scalar::zero()),
        spec_strictly_within(roots.near, t_min, t_max),
    ensures
        roots.hit(t_min, t_max) == Some(roots.near),
{
}

/// A reported parameter is a root that is a number strictly inside the range,
/// and the far root is reported only where the near one is outside.
pub proof fn lemma_hit_is_nearest_root_in_range(roots: Roots, t_min: Scalar, t_max: Scalar)
    ensures
        roots.hit(t_min, t_max) matches Some(t) ==> {
            &&& !t.is_nan()
            &&& t_min.rank() < t.rank() < t_max.rank()
            &&& (t == roots.near || (t == roots.far && !spec_strictly_within(
                roots.near,
                t_min,
                t_max,
            )))
        },
        roots.hit(t_min, t_max) is None ==> {
            ||| roots.discriminant.lt(Scalar::zero())
            ||| (!spec_strictly_within(roots.near, t_min, t_max) && !spec_strictly_within(
                roots.far,
                t_min,
                t_max,
            ))
        },
{
}

} // verus!
