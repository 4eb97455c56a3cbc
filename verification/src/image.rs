//! An image: its size and its pixels.
use vstd::prelude::*;
use crate::color::Color;
use crate::ppm::{header, push_header, push_triplet, triplet};

verus! {

/// A raster of colours. The pixels are held row by row from the top; the
/// image is complete when there are `width * height` of them.
#[derive(Debug, Clone)]
pub struct Image {
    pub width: usize,
    pub height: usize,
    pub pixels: Vec<Color>,
}

/// The lines of a sequence of pixels, in order.
pub open spec fn rows(pixels: Seq<Color>) -> Seq<u8>
    decreases pixels.len(),
{
    if pixels.len() == 0 {
        Seq::<u8>::empty()
    } else {
        rows(pixels.drop_last()) + triplet(
            pixels.last().0 as int,
            pixels.last().1 as int,
            pixels.last().2 as int,
        )
    }
}

impl Image {
    /// The image as a plain-text pixel map: the header for its size, then
    /// the line of each pixel it holds.
    pub open spec fn ppm(self) -> Seq<u8> {
        header(self.width as nat, self.height as nat) + rows(self.pixels@)
    }

    /// An image of the given size with no pixel yet, and room reserved for
    /// all of them. The three bytes of each pixel must fit in memory
    /// together.
    pub fn new(width: usize, height: usize) -> (image: Image)
        requires
            width * height * 3 <= isize::MAX,
        ensures
            image.width == width,
            image.height == height,
            image.pixels@ == Seq::<Color>::empty(),
    {
        proof {
            assert(width * height <= width * height * 3) by (nonlinear_arith);
        }
        Image { width, height, pixels: Vec::with_capacity(width * height) }
    }

    /// The image as the bytes of a plain-text pixel map.
    pub fn to_ppm(&self) -> (out: Vec<u8>)
        ensures
            out@ == self.ppm(),
    {
        let mut out: Vec<u8> = Vec::new();
        push_header(&mut out, self.width, self.height);
        let mut k: usize = 0;
        proof {
            assert(self.pixels@.take(0) =~= Seq::<Color>::empty());
        }
        while k < self.pixels.len()
            invariant
                0 <= k <= self.pixels@.len(),
                out@ == header(self.width as nat, self.height as nat) + rows(
                    self.pixels@.take(k as int),
                ),
            decreases self.pixels@.len() - k,
        {
            let pixel = self.pixels[k];
            proof {
                let upto = self.pixels@.take(k as int + 1);
                assert(upto.drop_last() =~= self.pixels@.take(k as int));
                assert(upto.last() == pixel);
            }
            push_triplet(&mut out, pixel.0 as i32, pixel.1 as i32, pixel.2 as i32);
            k = k + 1;
            proof {
                assert(out@ =~= header(self.width as nat, self.height as nat) + rows(
                    self.pixels@.take(k as int),
                ));
            }
        }
        proof {
            assert(self.pixels@.take(k as int) =~= self.pixels@);
        }
        out
    }
}

} // verus!
