//! The pixels of one flush request.
//!
//! The engine hands over a rectangle and a buffer that holds one native colour
//! for each cell of the rectangle, row after row. [`FlushPixels`] reads that
//! pair as the sequence of positioned, converted pixels that a render target
//! accepts, one pixel at a time and without copying the buffer.

use crate::color::Color;
use crate::geometry::{Area, Pixel, Point};
use std::marker::PhantomData;
use vstd::arithmetic::div_mod::{
    lemma_fundamental_div_mod,
    lemma_fundamental_div_mod_converse,
    lemma_mod_bound,
    lemma_multiply_divide_lt,
};
use vstd::prelude::*;
use vstd::std_specs::convert::FromSpec;

verus! {

/// Absolute position of the cell in column `ix` and row `iy` of the region.
pub open spec fn cell_point(area: Area, ix: int, iy: int) -> Point {
    Point { x: (area.x1 + ix) as i32, y: (area.y1 + iy) as i32 }
}

/// Offset, in the engine's buffer, of the cell in column `ix` and row `iy`.
pub open spec fn cell_offset(area: Area, ix: int, iy: int) -> int {
    area.width() * iy + ix
}

/// Column, within the region, of the cell at buffer offset `i`.
pub open spec fn column_of(area: Area, i: int) -> int {
    i % (area.width() as int)
}

/// Row, within the region, of the cell at buffer offset `i`.
pub open spec fn row_of(area: Area, i: int) -> int {
    i / (area.width() as int)
}

/// Absolute position of the cell at buffer offset `i`.
pub open spec fn point_at(area: Area, i: int) -> Point {
    cell_point(area, column_of(area, i), row_of(area, i))
}

/// The pixel that the cell at buffer offset `i` stands for: its absolute
/// position and its native colour converted to `C`.
pub open spec fn pixel_at<C: From<Color>>(area: Area, cells: Seq<u16>, i: int) -> Pixel<C> {
    Pixel(point_at(area, i), C::from_spec(Color { raw: cells[i] }))
}

/// All pixels of a flush request, in buffer order.
pub open spec fn flush_pixels<C: From<Color>>(area: Area, cells: Seq<u16>) -> Seq<Pixel<C>> {
    Seq::new(area.size(), |i: int| pixel_at::<C>(area, cells, i))
}

/// `a` comes before `b` when rows are read top to bottom and each row left to
/// right.
pub open spec fn row_major_before(a: Point, b: Point) -> bool {
    a.y < b.y || (a.y == b.y && a.x < b.x)
}

/// The cell in column `ix` and row `iy` of the region lies in the buffer, and
/// its offset leads back to that column and row.
pub proof fn lemma_cell_offset(area: Area, ix: int, iy: int)
    requires
        0 <= ix < area.width(),
        0 <= iy < area.height(),
    ensures
        0 <= cell_offset(area, ix, iy) < area.size(),
        column_of(area, cell_offset(area, ix, iy)) == ix,
        row_of(area, cell_offset(area, ix, iy)) == iy,
        point_at(area, cell_offset(area, ix, iy)) == cell_point(area, ix, iy),
{
    let w: int = area.width() as int;
    let h: int = area.height() as int;
    assert(0 <= w * iy + ix < w * h) by (nonlinear_arith)
        requires
            0 <= ix < w,
            0 <= iy < h,
    ;
    assert(w * iy + ix == iy * w + ix) by (nonlinear_arith);
    lemma_fundamental_div_mod_converse(w * iy + ix, w, iy, ix);
}

/// Every buffer offset belongs to one cell of the region: its column and row
/// lie inside the region and lead back to the offset.
pub proof fn lemma_offset_cell(area: Area, i: int)
    requires
        0 <= i < area.size(),
    ensures
        0 <= column_of(area, i) < area.width(),
        0 <= row_of(area, i) < area.height(),
        cell_offset(area, column_of(area, i), row_of(area, i)) == i,
{
    let w: int = area.width() as int;
    let h: int = area.height() as int;
    assert(w > 0) by (nonlinear_arith)
        requires
            0 <= i < w * h,
            0 <= w,
            0 <= h,
    ;
    lemma_fundamental_div_mod(i, w);
    lemma_mod_bound(i, w);
    lemma_multiply_divide_lt(i, w, h);
    assert(0 <= i / w) by (nonlinear_arith)
        requires
            0 <= i,
            0 < w,
    ;
}

/// The pixel sequence of a flush request visits every cell of the region
/// exactly once, row after row and each row from left to right, and gives each
/// cell its absolute coordinates and the colour found at its buffer offset.
pub proof fn lemma_row_major<C: From<Color>>(area: Area, cells: Seq<u16>)
    requires
        cells.len() == area.size(),
    ensures
        flush_pixels::<C>(area, cells).len() == area.size(),
        // every cell is visited, at its row-major offset, with its absolute
        // coordinates and its own colour
        forall|ix: int, iy: int|
            0 <= ix < area.width() && 0 <= iy < area.height() ==> {
                &&& 0 <= #[trigger] cell_offset(area, ix, iy) < area.size()
                &&& flush_pixels::<C>(area, cells)[cell_offset(area, ix, iy)] == Pixel(
                    Point { x: (area.x1 + ix) as i32, y: (area.y1 + iy) as i32 },
                    C::from_spec(Color { raw: cells[cell_offset(area, ix, iy)] }),
                )
                &&& area.x1 <= area.x1 + ix <= area.x2
                &&& area.y1 <= area.y1 + iy <= area.y2
            },
        // every element of the sequence is such a cell
        forall|i: int|
            0 <= i < area.size() ==> {
                &&& 0 <= #[trigger] column_of(area, i) < area.width()
                &&& 0 <= row_of(area, i) < area.height()
                &&& cell_offset(area, column_of(area, i), row_of(area, i)) == i
            },
        // no cell is visited twice
        forall|i: int, j: int|
            0 <= i < area.size() && 0 <= j < area.size() && i != j ==> #[trigger] flush_pixels::<
                C,
            >(area, cells)[i].0 != #[trigger] flush_pixels::<C>(area, cells)[j].0,
        // earlier elements come first in row-major order
        forall|i: int, j: int|
            0 <= i < j < area.size() ==> row_major_before(
                #[trigger] flush_pixels::<C>(area, cells)[i].0,
                #[trigger] flush_pixels::<C>(area, cells)[j].0,
            ),
{
    let pixels = flush_pixels::<C>(area, cells);
    assert forall|ix: int, iy: int| 0 <= ix < area.width() && 0 <= iy < area.height() implies {
        &&& 0 <= #[trigger] cell_offset(area, ix, iy) < area.size()
        &&& pixels[cell_offset(area, ix, iy)] == Pixel(
            Point { x: (area.x1 + ix) as i32, y: (area.y1 + iy) as i32 },
            C::from_spec(Color { raw: cells[cell_offset(area, ix, iy)] }),
        )
        &&& area.x1 <= area.x1 + ix <= area.x2
        &&& area.y1 <= area.y1 + iy <= area.y2
    } by {
        lemma_cell_offset(area, ix, iy);
    }
    assert forall|i: int| 0 <= i < area.size() implies {
        &&& 0 <= #[trigger] column_of(area, i) < area.width()
        &&& 0 <= row_of(area, i) < area.height()
        &&& cell_offset(area, column_of(area, i), row_of(area, i)) == i
    } by {
        lemma_offset_cell(area, i);
    }
    assert forall|i: int, j: int| 0 <= i < j < area.size() implies row_major_before(
        #[trigger] pixels[i].0,
        #[trigger] pixels[j].0,
    ) by {
        lemma_points_ordered(area, i, j);
    }
    assert forall|i: int, j: int|
        0 <= i < area.size() && 0 <= j < area.size() && i != j implies #[trigger] pixels[i].0
        != #[trigger] pixels[j].0 by {
        if i < j {
            lemma_points_ordered(area, i, j);
        } else {
            lemma_points_ordered(area, j, i);
        }
    }
}

/// Of two buffer offsets, the smaller one belongs to the cell that comes first
/// in row-major order.
pub proof fn lemma_points_ordered(area: Area, i: int, j: int)
    requires
        0 <= i < j < area.size(),
    ensures
        row_major_before(point_at(area, i), point_at(area, j)),
{
    let w: int = area.width() as int;
    lemma_offset_cell(area, i);
    lemma_offset_cell(area, j);
    let ci: int = column_of(area, i);
    let ri: int = row_of(area, i);
    let cj: int = column_of(area, j);
    let rj: int = row_of(area, j);
    assert(ri < rj || (ri == rj && ci < cj)) by (nonlinear_arith)
        requires
            w * ri + ci < w * rj + cj,
            0 <= ci < w,
            0 <= cj < w,
    ;
}

/// The pixels of one flush request: a region and the engine's buffer for it,
/// read as pixels of colour `C`.
///
/// The buffer holds exactly one cell for each cell of the region.
pub struct FlushPixels<'a, C> {
    area: Area,
    color_p: &'a [u16],
    phantom: PhantomData<C>,
}

impl<'a, C> FlushPixels<'a, C> {
    #[verifier::type_invariant]
    spec fn well_formed(self) -> bool {
        self.color_p@.len() == self.area.size()
    }

    /// The region that is flushed.
    pub closed spec fn area(self) -> Area {
        self.area
    }

    /// The engine's buffer: one native colour for each cell, row after row.
    pub closed spec fn cells(self) -> Seq<u16> {
        self.color_p@
    }
}

impl<'a, C: From<Color>> FlushPixels<'a, C> {
    /// The pixels in the order in which the render target receives them.
    pub open spec fn pixels(self) -> Seq<Pixel<C>> {
        flush_pixels::<C>(self.area(), self.cells())
    }

    /// Reads `color_p` as the pixels of `area`, if it holds exactly one cell
    /// for each cell of the region.
    pub fn new(area: Area, color_p: &'a [u16]) -> (pixels: Option<FlushPixels<'a, C>>)
        ensures
            pixels is Some <==> color_p@.len() == area.size(),
            pixels is Some ==> pixels->0.area() == area && pixels->0.cells() == color_p@,
    {
        if color_p.len() as u64 == area.get_size() {
            Some(FlushPixels { area, color_p, phantom: PhantomData })
        } else {
            None
        }
    }

    /// The region that is flushed.
    pub fn get_area(&self) -> (area: Area)
        ensures
            area == self.area(),
    {
        self.area
    }

    /// Number of pixels.
    pub fn len(&self) -> (n: usize)
        ensures
            n == self.area().size(),
            n == self.cells().len(),
    {
        proof {
            use_type_invariant(self);
        }
        self.color_p.len()
    }

    /// The pixel at place `i` of the sequence.
    pub fn get(&self, i: usize) -> (pixel: Pixel<C>)
        requires
            i < self.area().size(),
        ensures
            pixel.0 == point_at(self.area(), i as int),
            call_ensures(C::from, (Color { raw: self.cells()[i as int] },), pixel.1),
            C::obeys_from_spec() ==> pixel == self.pixels()[i as int],
    {
        proof {
            use_type_invariant(self);
            lemma_offset_cell(self.area, i as int);
        }
        let w: usize = self.area.get_width() as usize;
        let ix: usize = i % w;
        let iy: usize = i / w;
        let x: i32 = self.area.x1 as i32 + ix as i32;
        let y: i32 = self.area.y1 as i32 + iy as i32;
        let color: Color = Color::from_raw(self.color_p[i]);
        Pixel(Point::new(x, y), C::from(color))
    }

    /// All pixels, in the order in which the render target receives them. The
    /// region is walked row after row, each row from left to right.
    pub fn to_vec(&self) -> (pixels: Vec<Pixel<C>>)
        ensures
            pixels@.len() == self.area().size(),
            forall|i: int|
                0 <= i < pixels@.len() ==> (#[trigger] pixels@[i]).0 == point_at(self.area(), i),
            forall|i: int|
                0 <= i < pixels@.len() ==> call_ensures(
                    C::from,
                    (Color { raw: self.cells()[i] },),
                    (#[trigger] pixels@[i]).1,
                ),
            C::obeys_from_spec() ==> pixels@ == self.pixels(),
    {
        proof {
            use_type_invariant(self);
        }
        let area: Area = self.area;
        let w: usize = area.get_width() as usize;
        let h: usize = area.get_height() as usize;
        let mut pixels: Vec<Pixel<C>> = Vec::new();
        let mut iy: usize = 0;
        while iy < h
            invariant
                area == self.area,
                w == area.width(),
                h == area.height(),
                self.color_p@.len() == area.size(),
                0 <= iy <= h,
                pixels@.len() == w * iy,
                pixels@.len() <= self.color_p@.len(),
                forall|i: int|
                    0 <= i < pixels@.len() ==> (#[trigger] pixels@[i]).0 == point_at(area, i),
                forall|i: int|
                    0 <= i < pixels@.len() ==> call_ensures(
                        C::from,
                        (Color { raw: self.color_p@[i] },),
                        (#[trigger] pixels@[i]).1,
                    ),
            decreases h - iy,
        {
            let mut ix: usize = 0;
            while ix < w
                invariant
                    area == self.area,
                    w == area.width(),
                    h == area.height(),
                    self.color_p@.len() == area.size(),
                    0 <= iy < h,
                    0 <= ix <= w,
                    pixels@.len() == w * iy + ix,
                    pixels@.len() <= self.color_p@.len(),
                    forall|i: int|
                        0 <= i < pixels@.len() ==> (#[trigger] pixels@[i]).0 == point_at(area, i),
                    forall|i: int|
                        0 <= i < pixels@.len() ==> call_ensures(
                            C::from,
                            (Color { raw: self.color_p@[i] },),
                            (#[trigger] pixels@[i]).1,
                        ),
                decreases w - ix,
            {
                proof {
                    lemma_cell_offset(area, ix as int, iy as int);
                    if ix + 1 < w {
                        lemma_cell_offset(area, ix + 1, iy as int);
                    } else {
                        assert(w * iy + w <= w * h) by (nonlinear_arith)
                            requires
                                iy < h,
                                0 <= w,
                        ;
                    }
                }
                let offset: usize = pixels.len();
                let x: i32 = area.x1 as i32 + ix as i32;
                let y: i32 = area.y1 as i32 + iy as i32;
                let color: Color = Color::from_raw(self.color_p[offset]);
                pixels.push(Pixel(Point::new(x, y), C::from(color)));
                ix = ix + 1;
            }
            proof {
                assert(w * iy + w == w * (iy + 1)) by (nonlinear_arith);
            }
            iy = iy + 1;
        }
        proof {
            assert(w * h == area.size());
            if C::obeys_from_spec() {
                assert(pixels@ =~= self.pixels());
            }
        }
        pixels
    }
}

} // verus!
