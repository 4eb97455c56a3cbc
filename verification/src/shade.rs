//! How a ray is lit.
//!
//! A primary ray is cast into the world. Where it hits nothing, the pixel
//! shows the sky. Where it hits, a second ray is cast from the hit point
//! towards the light: if anything is in its way, the point lies in shadow and
//! keeps only the ambient share of its colour; if nothing is, it is lit.
use vstd::prelude::*;
use crate::scalar::Scalar;

verus! {

/// The pattern of `0.001`, the parameter below which a ray's hits are
/// ignored, so that a shadow ray does not hit the surface it leaves.
pub const BIAS_BITS: u64 = 0x3F50_624D_D2F1_A9FC;

/// The pattern of `0.1`, the share of a colour that remains in shadow.
pub const AMBIENT_BITS: u64 = 0x3FB9_9999_9999_999A;

/// The pattern of `1.0`, the most that a channel of a colour can hold.
pub const FULL_BITS: u64 = 0x3FF0_0000_0000_0000;

/// What a pixel shows.
#[derive(Clone, Copy, Debug, PartialEq, Eq, Structural)]
pub enum Lighting {
    /// The primary ray hit nothing: the background gradient.
    Sky,
    /// The way to the light is blocked: the colour times the ambient share.
    Shadowed,
    /// The light is seen: the colour times the sum of the ambient share and
    /// the diffuse term, each channel held at one.
    Lit,
}

/// What a pixel shows, given whether the primary ray hit and whether the
/// shadow ray did.
pub open spec fn spec_lighting(hit: bool, occluded: bool) -> Lighting {
    if !hit {
        Lighting::Sky
    } else if occluded {
        Lighting::Shadowed
    } else {
        Lighting::Lit
    }
}

/// The diffuse term for the dot product of the normal with the direction to
/// the light: the dot product where it is greater than zero, else zero.
pub open spec fn spec_diffuse(dot: Scalar) -> Scalar {
    if dot.gt(Scalar::zero()) {
        dot
    } else {
        Scalar::zero()
    }
}

/// A channel held at one: the channel where it is less than one, else one.
pub open spec fn spec_clamp(channel: Scalar) -> Scalar {
    if channel.lt(Scalar { bits: FULL_BITS }) {
        channel
    } else {
        Scalar { bits: FULL_BITS }
    }
}

/// The range in which both the primary and the shadow ray look for hits:
/// above `0.001`, without an upper end.
pub fn range() -> (r: (Scalar, Scalar))
    ensures
        r.0.bits == BIAS_BITS,
        r.1 == Scalar::infinity(),
{
    (Scalar::from_bits(BIAS_BITS), Scalar::infinity())
}

/// The share of a colour that remains in shadow, `0.1`.
pub fn ambient() -> (a: Scalar)
    ensures
        a.bits == AMBIENT_BITS,
{
    Scalar::from_bits(AMBIENT_BITS)
}

/// What a pixel shows. A hit point whose shadow ray hits anything is in full
/// shadow; one whose shadow ray hits nothing is lit; without a primary hit
/// the shadow ray does not matter.
#[verifier::when_used_as_spec(spec_lighting)]
pub fn lighting(hit: bool, occluded: bool) -> (l: Lighting)
    ensures
        l == spec_lighting(hit, occluded),
        hit && occluded ==> l == Lighting::Shadowed,
        hit && !occluded ==> l == Lighting::Lit,
        !hit ==> l == Lighting::Sky,
{
    if !hit {
        Lighting::Sky
    } else if occluded {
        Lighting::Shadowed
    } else {
        Lighting::Lit
    }
}

/// The diffuse term, `max(dot, 0)`: a surface turned away from the light
/// receives none, and never less than none. The result is always a number
/// and never negative; a dot product that is zero or no number gives
/// positive zero.
#[verifier::when_used_as_spec(spec_diffuse)]
pub fn diffuse(dot: Scalar) -> (d: Scalar)
    ensures
        d == spec_diffuse(dot),
        !d.is_nan(),
        d.rank() >= 0,
        !dot.is_nan() ==> d.rank() == (if dot.rank() > 0 {
            dot.rank()
        } else {
            0
        }),
{
    if dot.gt(Scalar::zero()) {
        dot
    } else {
        Scalar::zero()
    }
}

/// A channel held at one, `min(channel, 1)`. The result is always a number
/// and never greater than one; a channel that is no number gives one.
#[verifier::when_used_as_spec(spec_clamp)]
pub fn clamp(channel: Scalar) -> (c: Scalar)
    ensures
        c == spec_clamp(channel),
        !c.is_nan(),
        c.rank() <= FULL_BITS,
        !channel.is_nan() ==> c.rank() == (if channel.rank() < FULL_BITS {
            channel.rank()
        } else {
            FULL_BITS as int
        }),
{
    let full = Scalar::from_bits(FULL_BITS);
    if channel.lt(full) {
        channel
    } else {
        full
    }
}

} // verus!
