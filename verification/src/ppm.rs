//! The plain-text pixel map.
//!
//! An image is written as the line `P3`, a line with the width and the
//! height, the line `255`, and then one line per pixel with its red, green
//! and blue value, rows from the top and each row from the left.
use vstd::prelude::*;
use crate::text::{digits, push_signed, push_unsigned, signed_digits};

verus! {

/// The three lines before the pixels.
pub open spec fn header(width: nat, height: nat) -> Seq<u8> {
    seq![80u8, 51u8, 10u8] + digits(width) + seq![32u8] + digits(height) + seq![
        10u8,
        50u8,
        53u8,
        53u8,
        10u8,
    ]
}

/// The line of one pixel.
pub open spec fn triplet(r: int, g: int, b: int) -> Seq<u8> {
    signed_digits(r) + seq![32u8] + signed_digits(g) + seq![32u8] + signed_digits(b) + seq![10u8]
}

/// Appends the three lines before the pixels: `P3`, the size, `255`.
pub fn push_header(out: &mut Vec<u8>, width: usize, height: usize)
    ensures
        final(out)@ == old(out)@ + header(width as nat, height as nat),
{
    out.push(80);
    out.push(51);
    out.push(10);
    push_unsigned(out, width as u64);
    out.push(32);
    push_unsigned(out, height as u64);
    out.push(10);
    out.push(50);
    out.push(53);
    out.push(53);
    out.push(10);
    proof {
        assert(final(out)@ =~= old(out)@ + header(width as nat, height as nat));
    }
}

/// Appends the line of one pixel: its three values in decimal, separated by
/// single spaces.
pub fn push_triplet(out: &mut Vec<u8>, r: i32, g: i32, b: i32)
    ensures
        final(out)@ == old(out)@ + triplet(r as int, g as int, b as int),
{
    push_signed(out, r as i64);
    out.push(32);
    push_signed(out, g as i64);
    out.push(32);
    push_signed(out, b as i64);
    out.push(10);
    proof {
        assert(final(out)@ =~= old(out)@ + triplet(r as int, g as int, b as int));
    }
}

} // verus!
