use vstd::prelude::*;
use vstd::string::*;

use crate::decimal::{decimal, push_decimal};

verus! {

/// An RGB pixel with 8-bit channels, in the order red, green, blue.
pub type Rgb = (u8, u8, u8);

/// What a writer holds: the announced dimensions and the pixels written so far, in
/// the order they were written.
pub struct PpmImage {
    pub width: nat,
    pub height: nat,
    pub pixels: Seq<Rgb>,
}

/// The header of a plain (ASCII) PPM file: magic number, dimensions, maximum value.
pub open spec fn ppm_header(width: nat, height: nat) -> Seq<char> {
    seq!['P', '3', '\n'] + decimal(width) + seq![' '] + decimal(height) + seq!['\n', '2', '5', '5', '\n']
}

/// One pixel as a line `R G B`.
pub open spec fn pixel_line(p: Rgb) -> Seq<char> {
    decimal(p.0 as nat) + seq![' '] + decimal(p.1 as nat) + seq![' '] + decimal(p.2 as nat) + seq!['\n']
}

/// The pixel lines of `ps`, in order.
pub open spec fn pixel_lines(ps: Seq<Rgb>) -> Seq<char>
    decreases ps.len(),
{
    if ps.len() == 0 {
        Seq::empty()
    } else {
        pixel_lines(ps.drop_last()) + pixel_line(ps.last())
    }
}

/// The full plain-PPM text of an image: the header, then one line per pixel.
pub open spec fn ppm_text(img: PpmImage) -> Seq<char> {
    ppm_header(img.width, img.height) + pixel_lines(img.pixels)
}

/// Writer of plain (ASCII) PPM images: pixels are appended in scan order and
/// serialized in that same order.
pub struct PpmWriter {
    width: u32,
    height: u32,
    pixels: Vec<u8>,
}

impl View for PpmWriter {
    type V = PpmImage;

    closed spec fn view(&self) -> PpmImage {
        PpmImage {
            width: self.width as nat,
            height: self.height as nat,
            pixels: Seq::new(
                (self.pixels@.len() / 3) as nat,
                |i: int| (self.pixels@[3 * i], self.pixels@[3 * i + 1], self.pixels@[3 * i + 2]),
            ),
        }
    }
}

impl PpmWriter {
    /// The internal sample buffer holds whole pixels only.
    pub closed spec fn wf(&self) -> bool {
        self.pixels@.len() % 3 == 0
    }

    /// Create a new PPM writer with the given dimensions and no pixels.
    pub fn new(width: u32, height: u32) -> (r: Self)
        ensures
            r.wf(),
            r@.width == width as nat,
            r@.height == height as nat,
            r@.pixels == Seq::<Rgb>::empty(),
    {
        let r = PpmWriter { width, height, pixels: Vec::new() };
        assert(r@.pixels =~= Seq::<Rgb>::empty());
        r
    }

    /// Append one pixel with RGB values (0-255).
    pub fn write_pixel(&mut self, r: u8, g: u8, b: u8)
        requires
            old(self).wf(),
        ensures
            final(self).wf(),
            final(self)@.width == old(self)@.width,
            final(self)@.height == old(self)@.height,
            final(self)@.pixels == old(self)@.pixels.push((r, g, b)),
    {
        self.pixels.push(r);
        self.pixels.push(g);
        self.pixels.push(b);
        assert(self@.pixels =~= old(self)@.pixels.push((r, g, b)));
    }

    /// Serialize to the plain PPM format: header, then one `R G B` line per pixel.
    pub fn to_string(&self) -> (r: String)
        requires
            self.wf(),
        ensures
            r@ == ppm_text(self@),
    {
        let mut result = String::new();
        result.append("P3\n");
        push_decimal(&mut result, self.width);
        result.append(" ");
        push_decimal(&mut result, self.height);
        result.append("\n");
        result.append("255\n");
        proof {
            reveal_strlit("P3\n");
            reveal_strlit(" ");
            reveal_strlit("\n");
            reveal_strlit("255\n");
            assert(result@ =~= ppm_header(self@.width, self@.height));
            assert(self@.pixels.take(0) =~= Seq::<Rgb>::empty());
        }
        let n: usize = self.pixels.len() / 3;
        let mut i: usize = 0;
        while i < n
            invariant
                self.wf(),
                n == self@.pixels.len(),
                n == self.pixels@.len() / 3,
                self.pixels@.len() <= usize::MAX,
                i <= n,
                result@ == ppm_header(self@.width, self@.height) + pixel_lines(self@.pixels.take(i as int)),
            decreases n - i,
        {
            proof {
                let len = self.pixels@.len();
                assert(3 * i + 2 < len) by (nonlinear_arith)
                    requires
                        i < n,
                        n == len / 3,
                ;
            }
            let base: usize = 3 * i;
            let red = self.pixels[base];
            let green = self.pixels[base + 1];
            let blue = self.pixels[base + 2];
            let ghost before = result@;
            push_decimal(&mut result, red as u32);
            result.append(" ");
            push_decimal(&mut result, green as u32);
            result.append(" ");
            push_decimal(&mut result, blue as u32);
            result.append("\n");
            proof {
                reveal_strlit(" ");
                reveal_strlit("\n");
                let ps = self@.pixels;
                assert(ps[i as int] == (red, green, blue));
                assert(ps.take(i + 1).drop_last() =~= ps.take(i as int));
                assert(result@ =~= before + pixel_line(ps[i as int]));
            }
            i = i + 1;
        }
        proof {
            assert(self@.pixels.take(n as int) =~= self@.pixels);
        }
        result
    }
}

/// Writing a pixel extends the serialized text by exactly that pixel's line: the
/// encoder emits pixels in the order they were written, after an unchanged header.
pub proof fn lemma_write_appends_line(img: PpmImage, p: Rgb)
    ensures
        ppm_text(PpmImage { pixels: img.pixels.push(p), ..img }) == ppm_text(img) + pixel_line(p),
{
    assert(img.pixels.push(p).drop_last() =~= img.pixels);
    assert(ppm_text(PpmImage { pixels: img.pixels.push(p), ..img }) =~= ppm_text(img) + pixel_line(p));
}

} // verus!
