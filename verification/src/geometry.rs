//! Positions, pixels and the rectangular regions that the engine flushes.

use vstd::prelude::*;

verus! {

/// An absolute position on the render target.
#[derive(Clone, Copy, Debug, PartialEq, Eq, Structural)]
pub struct Point {
    /// Column, growing to the right.
    pub x: i32,
    /// Row, growing downwards.
    pub y: i32,
}

impl Point {
    /// The position in column `x` and row `y`.
    pub fn new(x: i32, y: i32) -> (point: Point)
        ensures
            point == (Point { x, y }),
    {
        Point { x, y }
    }
}

/// One position together with the colour to put there.
#[derive(Clone, Copy, Debug, PartialEq, Eq)]
pub struct Pixel<C>(pub Point, pub C);

/// A rectangle of cells. All four bounds are inclusive, as the engine states
/// them. A rectangle whose second corner lies before its first holds no cell.
#[derive(Clone, Copy, Debug, PartialEq, Eq, Structural)]
pub struct Area {
    /// Leftmost column.
    pub x1: i16,
    /// Topmost row.
    pub y1: i16,
    /// Rightmost column.
    pub x2: i16,
    /// Bottommost row.
    pub y2: i16,
}

impl Area {
    /// Both corners are in order, so the rectangle holds at least one cell.
    pub open spec fn is_valid(self) -> bool {
        self.x1 <= self.x2 && self.y1 <= self.y2
    }

    /// Number of columns.
    pub open spec fn width(self) -> nat {
        if self.x1 <= self.x2 {
            (self.x2 - self.x1 + 1) as nat
        } else {
            0
        }
    }

    /// Number of rows.
    pub open spec fn height(self) -> nat {
        if self.y1 <= self.y2 {
            (self.y2 - self.y1 + 1) as nat
        } else {
            0
        }
    }

    /// Number of cells.
    pub open spec fn size(self) -> nat {
        self.width() * self.height()
    }

    /// The rectangle from `(x1, y1)` to `(x2, y2)`, both included.
    pub fn new(x1: i16, y1: i16, x2: i16, y2: i16) -> (area: Area)
        ensures
            area == (Area { x1, y1, x2, y2 }),
    {
        Area { x1, y1, x2, y2 }
    }

    /// Number of columns.
    pub fn get_width(&self) -> (w: u32)
        ensures
            w == self.width(),
            w <= 0x1_0000,
    {
        if self.x1 <= self.x2 {
            let span: i32 = self.x2 as i32 - self.x1 as i32 + 1;
            span as u32
        } else {
            0
        }
    }

    /// Number of rows.
    pub fn get_height(&self) -> (h: u32)
        ensures
            h == self.height(),
            h <= 0x1_0000,
    {
        if self.y1 <= self.y2 {
            let span: i32 = self.y2 as i32 - self.y1 as i32 + 1;
            span as u32
        } else {
            0
        }
    }

    /// Number of cells.
    pub fn get_size(&self) -> (n: u64)
        ensures
            n == self.size(),
            n <= 0x1_0000_0000,
    {
        let w: u64 = self.get_width() as u64;
        let h: u64 = self.get_height() as u64;
        assert(w * h <= 0x1_0000 * 0x1_0000) by (nonlinear_arith)
            requires
                w <= 0x1_0000,
                h <= 0x1_0000,
        ;
        w * h
    }
}

/// A rectangle holds a cell exactly when its corners are in order.
pub proof fn lemma_valid_area_has_cells(area: Area)
    ensures
        area.is_valid() <==> area.size() > 0,
        area.is_valid() ==> area.width() == area.x2 - area.x1 + 1 && area.height() == area.y2
            - area.y1 + 1,
{
    let w: int = area.width() as int;
    let h: int = area.height() as int;
    if area.is_valid() {
        assert(w * h > 0) by (nonlinear_arith)
            requires
                w > 0,
                h > 0,
        ;
    } else {
        assert(w * h == 0) by (nonlinear_arith)
            requires
                w == 0 || h == 0,
        ;
    }
}

} // verus!
