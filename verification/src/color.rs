//! Colours with eight-bit channels.
use vstd::prelude::*;
use vstd::std_specs::ops::AddSpecImpl;

verus! {

/// A colour: red, green and blue, each from 0 to 255.
#[derive(Debug, Clone, Copy, PartialEq, Eq, Structural)]
pub struct Color(pub u8, pub u8, pub u8);

/// The sum of two channels, held at 255.
pub open spec fn channel_sum(a: u8, b: u8) -> u8 {
    if a + b > 255 {
        255u8
    } else {
        (a + b) as u8
    }
}

/// The sum of two colours: channel by channel, each held at 255.
pub open spec fn color_sum(a: Color, b: Color) -> Color {
    Color(channel_sum(a.0, b.0), channel_sum(a.1, b.1), channel_sum(a.2, b.2))
}

fn add_channels(a: u8, b: u8) -> (c: u8)
    ensures
        c == channel_sum(a, b),
{
    if a > 255 - b {
        255
    } else {
        a + b
    }
}

impl Color {
    /// The colour with the given channels.
    pub fn new(r: u8, g: u8, b: u8) -> (c: Color)
        ensures
            c == Color(r, g, b),
    {
        Color(r, g, b)
    }
}

impl core::ops::Add for Color {
    type Output = Color;

    /// Adds channel by channel; a channel that would pass 255 stays at 255.
    fn add(self, other: Color) -> (sum: Color)
        ensures
            sum == color_sum(self, other),
    {
        Color(
            add_channels(self.0, other.0),
            add_channels(self.1, other.1),
            add_channels(self.2, other.2),
        )
    }
}

impl AddSpecImpl for Color {
    open spec fn obeys_add_spec() -> bool {
        true
    }

    open spec fn add_req(self, other: Color) -> bool {
        true
    }

    open spec fn add_spec(self, other: Color) -> Color {
        color_sum(self, other)
    }
}

/// Adding colours is commutative, black is its identity, and no channel of a
/// sum is below the same channel of either summand.
pub proof fn lemma_sum_of_colors(a: Color, b: Color)
    ensures
        color_sum(a, b) == color_sum(b, a),
        color_sum(a, Color(0, 0, 0)) == a,
        color_sum(a, b).0 >= a.0 && color_sum(a, b).0 >= b.0,
        color_sum(a, b).1 >= a.1 && color_sum(a, b).1 >= b.1,
        color_sum(a, b).2 >= a.2 && color_sum(a, b).2 >= b.2,
{
}

} // verus!
