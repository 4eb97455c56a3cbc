//! The infinite plane: when the crossing is reported.
//!
//! For a plane through `point` with unit normal `n`, the caller computes the
//! denominator `dot(n, direction)` and the parameter
//! `dot(point - origin, n) / denominator`. A ray whose denominator is within
//! `1e-6` of zero is taken to run along the plane, and the quotient, whatever
//! the division made of it, is not looked at.
use vstd::prelude::*;
use crate::scalar::Scalar;
use crate::surface::{spec_within, within};

verus! {

/// The denominator of the plane equation and the parameter it yields.
#[derive(Clone, Copy, Debug)]
pub struct Crossing {
    pub denominator: Scalar,
    pub t: Scalar,
}

impl Crossing {
    /// Whether the ray is taken to run along the plane: the denominator's
    /// absolute value is not greater than `1e-6`.
    pub open spec fn spec_is_parallel(self) -> bool {
        !self.denominator.abs().gt(Scalar::epsilon())
    }

    /// The parameter at which the plane is hit within `t_min ..= t_max`, both
    /// ends included: the crossing, unless the ray is parallel or the
    /// crossing is outside that range.
    pub open spec fn spec_hit(self, t_min: Scalar, t_max: Scalar) -> Option<Scalar> {
        if !self.spec_is_parallel() && spec_within(self.t, t_min, t_max) {
            Some(self.t)
        } else {
            None
        }
    }

    /// Whether the ray is taken to run along the plane.
    #[verifier::when_used_as_spec(spec_is_parallel)]
    pub fn is_parallel(self) -> (r: bool)
        ensures
            r == self.spec_is_parallel(),
            r == (self.denominator.is_nan() || -Scalar::epsilon().rank()
                <= self.denominator.rank() <= Scalar::epsilon().rank()),
    {
        !self.denominator.abs().gt(Scalar::epsilon())
    }

    /// The intersection of the ray with the plane within `t_min ..= t_max`,
    /// if there is one.
    #[verifier::when_used_as_spec(spec_hit)]
    pub fn hit(self, t_min: Scalar, t_max: Scalar) -> (r: Option<Scalar>)
        ensures
            r == self.spec_hit(t_min, t_max),
    {
        if !self.is_parallel() && within(self.t, t_min, t_max) {
            Some(self.t)
        } else {
            None
        }
    }
}

/// A ray parallel to the plane never hits it: where the dot product of the
/// direction with the normal is zero, nothing is reported, whatever the
/// origin, and so whatever the quotient and the range.
pub proof fn lemma_parallel_ray_never_hits(crossing: Crossing, t_min: Scalar, t_max: Scalar)
    requires
        crossing.denominator.equals(Scalar::zero()),
    ensures
        crossing.hit(t_min, t_max) is None,
{
}

/// A reported parameter is the crossing itself, a number inside the closed
/// range, and comes from a denominator beyond the tolerance.
pub proof fn lemma_hit_is_crossing_in_range(crossing: Crossing, t_min: Scalar, t_max: Scalar)
    ensures
        crossing.hit(t_min, t_max) matches Some(t) ==> {
            &&& t == crossing.t
            &&& !t.is_nan()
            &&& t_min.rank() <= t.rank() <= t_max.rank()
            &&& !crossing.denominator.is_nan()
            &&& (crossing.denominator.rank() > Scalar::epsilon().rank()
                || crossing.denominator.rank() < -Scalar::epsilon().rank())
        },
{
}

} // verus!
