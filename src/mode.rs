use vstd::prelude::*;

use crate::arrow::Arrow;
use crate::draw::{Color, DrawOverlay, OverlayPoint};
use crate::rectangle::{drag_spec, drag_bounds, Bounds};
use crate::vec2::Vec2;

verus! {

/// The interaction state. Every mode but `Normal` owns the shape being edited.
#[derive(Debug)]
pub enum Mode {
    Normal,
    DrawRectangle(crate::rectangle::Rectangle, Anchor),
    DrawArrow(Arrow),
    Select(Selection),
    Text(crate::rectangle::Rectangle),
}

impl Mode {
    pub fn is_normal(&self) -> (r: bool)
        ensures
            r == (*self is Normal),
    {
        match self {
            Mode::Normal => true,
            _ => false,
        }
    }
}

/// When resizing a rectangle, which corner is being dragged
#[derive(Clone, Copy, Debug, PartialEq, Eq, Structural)]
pub enum Anchor {
    TopLeft,
    TopRight,
    BottomRight,
    BottomLeft,
}

/// The area being selected, highlighted without changing what it shows.
#[derive(Clone, Copy, Debug, PartialEq, Eq, Structural)]
pub struct Selection {
    pub x: i32,
    pub y: i32,
    pub width: i32,
    pub height: i32,
}

impl Selection {
    pub open spec fn bounds(&self) -> Bounds {
        Bounds { x: self.x, y: self.y, width: self.width, height: self.height }
    }

    /// Follows the cursor with the bottom right corner, as a rectangle's resize does.
    pub fn drag_corner(&mut self, anchor: &mut Anchor, cursor: Vec2<u16>)
        ensures
            final(self).bounds() == drag_spec(old(self).bounds(), *old(anchor), cursor.x as int, cursor.y as int).0,
            *final(anchor) == drag_spec(old(self).bounds(), *old(anchor), cursor.x as int, cursor.y as int).1,
    {
        let b = Bounds { x: self.x, y: self.y, width: self.width, height: self.height };
        let (nb, na, _) = drag_bounds(b, *anchor, cursor);
        self.x = nb.x;
        self.y = nb.y;
        self.width = nb.width;
        self.height = nb.height;
        *anchor = na;
    }

    /// The cells of the selection in row-major order.
    pub open spec fn covered(&self) -> Seq<OverlayPoint>
        decreases self.height,
    {
        self.covered_rows(self.height as int)
    }

    pub open spec fn covered_rows(&self, n: int) -> Seq<OverlayPoint>
        decreases n,
    {
        if n <= 0 {
            seq![]
        } else {
            self.covered_rows(n - 1) + self.covered_row(n - 1)
        }
    }

    pub open spec fn covered_row(&self, row: int) -> Seq<OverlayPoint> {
        Seq::new(
            if self.width > 0 { self.width as nat } else { 0 },
            |c: int| OverlayPoint { x: (self.x + c) as i32, y: (self.y + row) as i32 },
        )
    }

    pub open spec fn on_canvas(&self) -> bool {
        self.x + self.width <= i32::MAX && self.y + self.height <= i32::MAX
    }
}

impl DrawOverlay for Selection {
    open spec fn overlay(&self) -> (Seq<OverlayPoint>, Option<Color>, Option<Color>) {
        if self.on_canvas() {
            (self.covered(), None, Some(Color::BorderBackgroundHover))
        } else {
            (seq![], None, Some(Color::BorderBackgroundHover))
        }
    }

    fn draw_overlay(&self) -> (r: (Vec<OverlayPoint>, Option<Color>, Option<Color>)) {
        let mut points: Vec<OverlayPoint> = Vec::new();
        let background = Some(Color::BorderBackgroundHover);
        if !(self.x as i64 + self.width as i64 <= i32::MAX as i64 && self.y as i64
            + self.height as i64 <= i32::MAX as i64) {
            return (points, None, background);
        }
        let mut y: i32 = 0;
        while y < self.height
            invariant
                self.on_canvas(),
                0 <= y,
                y <= self.height || y == 0,
                points@ == self.covered_rows(y as int),
            decreases self.height - y,
        {
            let mut x: i32 = 0;
            while x < self.width
                invariant
                    self.on_canvas(),
                    0 <= y < self.height,
                    0 <= x,
                    x <= self.width || x == 0,
                    points@ == self.covered_rows(y as int) + self.covered_row(y as int).take(
                        x as int,
                    ),
                decreases self.width - x,
            {
                points.push(OverlayPoint { x: self.x + x, y: self.y + y });
                assert(self.covered_row(y as int).take(x + 1) =~= self.covered_row(
                    y as int,
                ).take(x as int).push(OverlayPoint { x: (self.x + x) as i32, y: (self.y + y) as i32 }));
                x = x + 1;
            }
            assert(self.covered_row(y as int).take(x as int) =~= self.covered_row(y as int));
            y = y + 1;
        }
        (points, None, background)
    }
}

} // verus!
