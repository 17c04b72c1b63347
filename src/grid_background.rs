use vstd::prelude::*;

use crate::draw::{Color, Draw, Point};

verus! {

/// A sparse pattern of dots behind the drawing.
pub struct GridBackground {
    pub width: u16,
    pub height: u16,
}

/// The dots sit on a staggered lattice: every 12th column of every 6th row, and
/// shifted by half in between.
pub open spec fn is_dot(x: int, y: int) -> bool {
    (x % 12 == 0 && y % 6 == 0) || ((x + 6) % 12 == 0 && (y + 3) % 6 == 0)
}

pub open spec fn dot(x: int, y: int) -> Point<i32> {
    Point { x: x as i32, y: y as i32, character: '*', foreground: Color::Grid, background: Color::EmptyBackground }
}

/// The dots among the first `m` rows of column `x`.
pub open spec fn column_dots(x: int, m: int) -> Seq<Point<i32>>
    decreases m,
{
    if m <= 0 {
        seq![]
    } else {
        column_dots(x, m - 1) + if is_dot(x, m - 1) {
            seq![dot(x, m - 1)]
        } else {
            seq![]
        }
    }
}

/// The dots of the first `n` columns, column by column.
pub open spec fn grid_dots(n: int, h: int) -> Seq<Point<i32>>
    decreases n,
{
    if n <= 0 {
        seq![]
    } else {
        grid_dots(n - 1, h) + column_dots(n - 1, h)
    }
}

impl GridBackground {
    pub fn new(width: u16, height: u16) -> (r: GridBackground)
        ensures
            r.width == width && r.height == height,
    {
        GridBackground { width, height }
    }
}

impl Draw for GridBackground {
    open spec fn drawable(&self) -> bool {
        true
    }

    open spec fn drawn(&self) -> Seq<Point<i32>> {
        grid_dots(self.width as int, self.height as int)
    }

    fn draw(&self) -> (r: Vec<Point<i32>>) {
        let mut points: Vec<Point<i32>> = Vec::new();
        let mut x: u16 = 0;
        while x < self.width
            invariant
                x <= self.width,
                points@ == grid_dots(x as int, self.height as int),
            decreases self.width - x,
        {
            let mut y: u16 = 0;
            while y < self.height
                invariant
                    x < self.width,
                    y <= self.height,
                    points@ == grid_dots(x as int, self.height as int) + column_dots(x as int, y as int),
                decreases self.height - y,
            {
                let xi = x as u32;
                let yi = y as u32;
                if (xi % 12 == 0 && yi % 6 == 0) || ((xi + 6) % 12 == 0 && (yi + 3) % 6 == 0) {
                    points.push(Point { x: x as i32, y: y as i32, character: '*', foreground: Color::Grid, background: Color::EmptyBackground });
                }
                y = y + 1;
                assert(points@ =~= grid_dots(x as int, self.height as int) + column_dots(x as int, y as int));
            }
            x = x + 1;
        }
        points
    }
}

} // verus!
