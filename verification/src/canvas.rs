//! A pixel buffer: a rectangle of colors that the renderer fills one
//! pixel at a time.  Serialization to an image file lives outside the
//! verified core.

use vstd::prelude::*;

use crate::canvas::color::Color;
use crate::canvas::color::Rgba;
use crate::fx::Fx;

pub mod color;

verus! {

/// The image of a row of pixels.
pub open spec fn row_view(row: Seq<Color>) -> Seq<Rgba> {
    row.map_values(|c: Color| c@)
}

/// A rectangle of pixels addressed as column `x`, row `y`.
#[derive(Debug, PartialEq)]
pub struct Canvas {
    height: usize,
    width: usize,
    pixels: Vec<Vec<Color>>,
}

impl View for Canvas {
    type V = Seq<Seq<Rgba>>;

    closed spec fn view(&self) -> Seq<Seq<Rgba>> {
        self.pixels@.map_values(|row: Vec<Color>| row_view(row@))
    }
}

impl Canvas {
    /// The height the canvas was made with.
    pub closed spec fn spec_height(&self) -> int {
        self.height as int
    }

    /// The width the canvas was made with.
    pub closed spec fn spec_width(&self) -> int {
        self.width as int
    }

    /// The rows match the height, and every row matches the width.
    pub open spec fn wf(&self) -> bool {
        &&& self@.len() == self.spec_height()
        &&& forall|i: int| 0 <= i < self@.len() ==> #[trigger] self@[i].len() == self.spec_width()
    }

    /// A canvas of the given size with every pixel cleared.
    pub fn new(width: usize, height: usize) -> (c: Canvas)
        ensures
            c.wf(),
            c.spec_width() == width as int,
            c.spec_height() == height as int,
            forall|i: int, j: int|
                0 <= i < height as int && 0 <= j < width as int ==> #[trigger] c@[i][j] == (Rgba {
                    r: 0,
                    g: 0,
                    b: 0,
                    a: 0,
                }),
    {
        let nil: Fx = Fx::zero();
        let blank: Color = Color::new(nil, nil, nil, nil);
        let mut rows: Vec<Vec<Color>> = Vec::new();
        let mut i: usize = 0;
        while i < height
            invariant
                i <= height,
                rows@.len() == i as int,
                blank@ == (Rgba { r: 0, g: 0, b: 0, a: 0 }),
                forall|ii: int|
                    0 <= ii < i as int ==> (#[trigger] rows@[ii])@.len() == width as int,
                forall|ii: int, jj: int|
                    0 <= ii < i as int && 0 <= jj < width as int ==> #[trigger] rows@[ii]@[jj]@
                        == (Rgba { r: 0, g: 0, b: 0, a: 0 }),
            decreases height - i,
        {
            let mut row: Vec<Color> = Vec::new();
            let mut j: usize = 0;
            while j < width
                invariant
                    j <= width,
                    row@.len() == j as int,
                    blank@ == (Rgba { r: 0, g: 0, b: 0, a: 0 }),
                    forall|jj: int|
                        0 <= jj < j as int ==> #[trigger] row@[jj]@ == (Rgba {
                            r: 0,
                            g: 0,
                            b: 0,
                            a: 0,
                        }),
                decreases width - j,
            {
                row.push(blank);
                j = j + 1;
            }
            rows.push(row);
            i = i + 1;
        }
        Canvas { height, width, pixels: rows }
    }

    /// Write one pixel; coordinates off the canvas are silently ignored.
    pub fn set_pixel(&mut self, x: usize, y: usize, c: Color)
        requires
            old(self).wf(),
        ensures
            final(self).wf(),
            final(self).spec_height() == old(self).spec_height(),
            final(self).spec_width() == old(self).spec_width(),
            (y as int) < old(self).spec_height() && (x as int) < old(self).spec_width()
                ==> final(self)@ == old(self)@.update(
                y as int,
                old(self)@[y as int].update(x as int, c@),
            ),
            !((y as int) < old(self).spec_height() && (x as int) < old(self).spec_width())
                ==> final(self)@ == old(self)@,
    {
        if y >= self.height || x >= self.width {
            return ;
        }
        proof {
            assert(self@[y as int] == row_view(self.pixels@[y as int]@));
        }
        let mut row: Vec<Color> = self.pixels.remove(y);
        proof {
            assert(row@ == old(self).pixels@[y as int]@);
            assert(old(self)@[y as int] == row_view(old(self).pixels@[y as int]@));
            assert(row@.len() == old(self)@[y as int].len());
        }
        row.set(x, c);
        self.pixels.insert(y, row);
        proof {
            assert(self.pixels@ =~= old(self).pixels@.update(y as int, row));
            assert(row_view(row@) =~= row_view(old(self).pixels@[y as int]@).update(x as int, c@));
            assert(self@ =~= old(self)@.update(y as int, old(self)@[y as int].update(x as int, c@)));
        }
    }

    /// Read one pixel; the coordinates must be on the canvas.
    pub fn get_pixel(&self, x: usize, y: usize) -> (c: Color)
        requires
            self.wf(),
            (x as int) < self.spec_width(),
            (y as int) < self.spec_height(),
        ensures
            c@ == self@[y as int][x as int],
    {
        proof {
            assert(self@[y as int] == row_view(self.pixels@[y as int]@));
        }
        self.pixels[y][x]
    }

    /// The height the canvas was made with.
    pub fn get_height(&self) -> (h: usize)
        ensures
            h as int == self.spec_height(),
    {
        self.height
    }

    /// The width the canvas was made with.
    pub fn get_width(&self) -> (w: usize)
        ensures
            w as int == self.spec_width(),
    {
        self.width
    }
}

} // verus!
