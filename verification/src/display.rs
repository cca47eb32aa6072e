//! The 64x32 monochrome raster. Pixels are stored row-major and are mutated
//! only by the clear and draw operations; the view is the flat sequence of
//! "is this pixel lit" booleans.
use vstd::prelude::*;

verus! {

/// Pixels per row.
pub const COLUMNS: usize = 64;

/// Number of rows.
pub const ROWS: usize = 32;

/// Total pixel count, `ROWS * COLUMNS`.
pub const PIXEL_COUNT: usize = 2048;

/// One pixel of the monochrome raster.
#[derive(Clone, Copy, Debug, PartialEq, Eq, Structural)]
pub enum MonochromePixel {
    Black,
    White,
}

/// Whether a pixel is lit.
pub open spec fn is_white(p: MonochromePixel) -> bool {
    p is White
}

/// The 64x32 raster, row-major.
#[derive(Debug)]
pub struct Display {
    pixels: Vec<MonochromePixel>,
}

impl View for Display {
    type V = Seq<bool>;

    closed spec fn view(&self) -> Seq<bool> {
        self.pixels@.map(|i: int, p: MonochromePixel| is_white(p))
    }
}

impl Display {
    /// The raster always holds exactly 2048 pixels.
    pub open spec fn wf(&self) -> bool {
        self@.len() == PIXEL_COUNT
    }

    /// An all-black raster.
    pub fn new() -> (r: Display)
        ensures
            r.wf(),
            forall|i: int| 0 <= i < PIXEL_COUNT ==> !r@[i],
    {
        let mut pixels: Vec<MonochromePixel> = Vec::new();
        let mut i: usize = 0;
        while i < PIXEL_COUNT
            invariant
                i <= PIXEL_COUNT,
                pixels@.len() == i,
                forall|k: int| 0 <= k < i ==> pixels@[k] == MonochromePixel::Black,
            decreases PIXEL_COUNT - i,
        {
            pixels.push(MonochromePixel::Black);
            i = i + 1;
        }
        Display { pixels }
    }

    /// Builds a raster from its flat pixel vector.
    pub fn from_pixels(pixels: Vec<MonochromePixel>) -> (r: Display)
        requires
            pixels@.len() == PIXEL_COUNT,
        ensures
            r.wf(),
            forall|i: int| 0 <= i < PIXEL_COUNT ==> r@[i] == is_white(pixels@[i]),
    {
        Display { pixels }
    }

    /// The pixel at `row`, `col` (row-major).
    pub fn pixel_at(&self, row: usize, col: usize) -> (r: MonochromePixel)
        requires
            self.wf(),
            row < ROWS,
            col < COLUMNS,
        ensures
            is_white(r) == self@[row * COLUMNS + col],
    {
        proof {
            assert(row * COLUMNS + col < PIXEL_COUNT) by (nonlinear_arith)
                requires
                    row < ROWS,
                    col < COLUMNS,
            ;
        }
        self.pixels[row * COLUMNS + col]
    }

    /// Whether the pixel at flat index `i` is lit.
    pub fn is_lit(&self, i: usize) -> (r: bool)
        requires
            self.wf(),
            i < PIXEL_COUNT,
        ensures
            r == self@[i as int],
    {
        match self.pixels[i] {
            MonochromePixel::White => true,
            MonochromePixel::Black => false,
        }
    }

    /// A pixel-for-pixel copy of the raster.
    pub fn duplicate(&self) -> (r: Display)
        requires
            self.wf(),
        ensures
            r@ == self@,
            r.wf(),
    {
        let mut pixels: Vec<MonochromePixel> = Vec::new();
        let mut i: usize = 0;
        while i < PIXEL_COUNT
            invariant
                i <= PIXEL_COUNT,
                self.wf(),
                pixels@.len() == i,
                forall|k: int| 0 <= k < i ==> is_white(pixels@[k]) == self@[k],
            decreases PIXEL_COUNT - i,
        {
            pixels.push(self.pixels[i]);
            i = i + 1;
        }
        let r = Display { pixels };
        proof {
            assert(r@ =~= self@);
        }
        r
    }
}

} // verus!
