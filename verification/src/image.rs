//! The bitmap that is printed: one bit for each pixel, row after row.

use crate::driver::bits::{
    image_bits, image_from_bools, image_len, image_range, ImageBits, IMAGE_BITS_MAX,
};
use vstd::prelude::*;

verus! {

/// Luma below which a pixel is printed black.
pub const BLACK_BELOW: u8 = 127;

/// A bitmap ready for printing. Its pixels stand row after row, the row
/// that leaves the printer first coming first; a set bit is a black dot.
pub struct PrintableImage {
    image: ImageBits,
    width: u32,
}

impl View for PrintableImage {
    type V = Seq<bool>;

    /// The pixels, row after row.
    closed spec fn view(&self) -> Seq<bool> {
        image_bits(self.image)
    }
}

/// The pixels that luma values stand for: black where the luma is below
/// `BLACK_BELOW`.
pub open spec fn thresholded(luma: Seq<u8>) -> Seq<bool> {
    Seq::new(luma.len(), |i: int| luma[i] < BLACK_BELOW)
}

impl PrintableImage {
    #[verifier::type_invariant]
    spec fn addressable(&self) -> bool {
        image_bits(self.image).len() <= IMAGE_BITS_MAX
    }

    /// Number of pixels in a row.
    pub closed spec fn spec_width(&self) -> u32 {
        self.width
    }

    /// Number of whole rows. Pixels after the last whole row are not
    /// printed.
    pub open spec fn spec_lines(&self) -> nat {
        self@.len() / self.spec_width() as nat
    }

    /// The pixels of row `line`.
    pub open spec fn spec_row(&self, line: nat) -> Seq<bool> {
        self@.subrange(line * self.spec_width(), (line + 1) * self.spec_width())
    }

    /// A bitmap of the pixels given, in rows of `width`. There is none for
    /// more than `IMAGE_BITS_MAX` pixels.
    pub fn new(pixels: &[bool], width: u32) -> (r: Option<Self>)
        ensures
            r is Some <==> pixels@.len() <= IMAGE_BITS_MAX,
            r matches Some(image) ==> image@ == pixels@ && image.spec_width() == width,
    {
        if pixels.len() <= IMAGE_BITS_MAX {
            Some(PrintableImage { image: image_from_bools(pixels), width })
        } else {
            None
        }
    }

    /// A bitmap of a grayscale picture given by its luma values, in rows
    /// of `width`: a pixel is black where its luma is below `BLACK_BELOW`.
    pub fn from_luma(luma: &[u8], width: u32) -> (r: Option<Self>)
        ensures
            r is Some <==> luma@.len() <= IMAGE_BITS_MAX,
            r matches Some(image) ==> image@ == thresholded(luma@) && image.spec_width() == width,
    {
        if luma.len() > IMAGE_BITS_MAX {
            return None;
        }
        let mut pixels: Vec<bool> = Vec::with_capacity(luma.len());
        let mut i: usize = 0;
        while i < luma.len()
            invariant
                i <= luma.len(),
                pixels@ == thresholded(luma@).take(i as int),
            decreases luma.len() - i,
        {
            pixels.push(luma[i] < BLACK_BELOW);
            assert(pixels@ =~= thresholded(luma@).take(i + 1));
            i = i + 1;
        }
        assert(pixels@ =~= thresholded(luma@));
        Self::new(pixels.as_slice(), width)
    }

    /// Number of pixels in a row.
    #[verifier::when_used_as_spec(spec_width)]
    pub fn width(&self) -> (w: u32)
        ensures
            w == self.spec_width(),
    {
        self.width
    }

    /// Number of pixels.
    pub fn len(&self) -> (n: usize)
        ensures
            n == self@.len(),
            n <= IMAGE_BITS_MAX,
    {
        proof {
            use_type_invariant(self);
        }
        image_len(&self.image)
    }

    /// Number of whole rows.
    pub fn lines(&self) -> (n: u32)
        requires
            self.spec_width() > 0,
        ensures
            n == self.spec_lines(),
    {
        let len = self.len();
        (len as u32) / self.width
    }

    /// The pixels of row `line`.
    pub fn row(&self, line: u32) -> (pixels: Vec<bool>)
        requires
            self.spec_width() > 0,
            line < self.spec_lines(),
        ensures
            pixels@ == self.spec_row(line as nat),
            pixels@.len() == self.spec_width(),
    {
        let len = self.len();
        proof {
            lemma_row_within(len as nat, self.width as nat, line as nat);
        }
        let start: usize = (line * self.width) as usize;
        let end: usize = start + self.width as usize;
        image_range(&self.image, start, end)
    }
}

/// Every whole row lies within the pixels.
pub proof fn lemma_row_within(len: nat, width: nat, line: nat)
    requires
        width > 0,
        line < len / width,
    ensures
        line * width + width <= len,
        (line + 1) * width == line * width + width,
        line * width <= len,
{
    assert((line + 1) * width == line * width + width) by (nonlinear_arith);
    assert((line + 1) * width <= (len / width) * width) by (nonlinear_arith)
        requires
            line + 1 <= len / width,
    ;
    assert((len / width) * width <= len) by (nonlinear_arith)
        requires
            width > 0,
    ;
}

} // verus!
