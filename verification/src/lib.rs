//! The deciding core of a ray caster.
//!
//! A ray caster spends its time on two kinds of work: arithmetic on real
//! numbers, and decisions taken on the results of that arithmetic. This
//! library is the second kind. For each surface it states, and proves, which
//! intersection is reported once the candidate parameters are known; for a
//! world of surfaces, which hit is nearest; for a hit, how it is lit. Real
//! numbers enter as bit patterns (see [`scalar`]) and are only ever compared.
//!
//! Beside the core stand the integer-valued pieces of the output path: colours
//! with eight-bit channels, an image of them, and the plain-text pixel map.
pub mod color;
pub mod cube;
pub mod cylinder;
pub mod image;
pub mod plane;
pub mod ppm;
pub mod preset;
pub mod scalar;
pub mod shade;
pub mod sphere;
pub mod surface;
pub mod text;
pub mod world;
