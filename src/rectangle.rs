use vstd::prelude::*;

use crate::characters::{
    CORNER_1_ROUNDED, CORNER_2_ROUNDED, CORNER_3_ROUNDED, CORNER_4_ROUNDED, HORIZONTAL_BAR,
    VERTICAL_BAR,
};
use crate::cursor::Cursor;
use crate::draw::{Color, Draw, EdgeIntersection, Intersection, Point};
use crate::mode::Anchor;
use crate::vec2::Vec2;

verus! {

/// A box with rounded corners and text that fills its inside row by row.
#[derive(Debug)]
pub struct Rectangle {
    pub x: i32,
    pub y: i32,
    pub width: i32,
    pub height: i32,
    pub text: Vec<char>,
    pub shape_id: u32,
    /// The side that the last resize pulled in, whose old border is cleared on the next draw.
    pub shrink: Shrink,
}

/// Which side of a rectangle was pulled in by the last resize.
#[derive(Clone, Copy, Debug, PartialEq, Eq, Structural)]
pub enum Shrink {
    Top,
    Bottom,
    Left,
    Right,
    Unchanged,
}

/// Position and size of a rectangle, without its content.
#[derive(Clone, Copy, Debug, PartialEq, Eq, Structural)]
pub struct Bounds {
    pub x: i32,
    pub y: i32,
    pub width: i32,
    pub height: i32,
}

/// `v`, held within the range of `i32`.
pub open spec fn sat(v: int) -> i32 {
    if v < i32::MIN {
        i32::MIN
    } else if v > i32::MAX {
        i32::MAX
    } else {
        v as i32
    }
}

fn sat_i64(v: i64) -> (r: i32)
    ensures
        r == sat(v as int),
{
    if v < i32::MIN as i64 {
        i32::MIN
    } else if v > i32::MAX as i64 {
        i32::MAX
    } else {
        v as i32
    }
}

/// Lets dragging go on when the cursor passes to the other side of a one-cell-wide border.
pub open spec fn adjust_anchor_spec(b: Bounds, anchor: Anchor, cx: int, cy: int) -> Anchor {
    match anchor {
        Anchor::TopLeft => if cx > b.x && b.width == 1 {
            Anchor::TopRight
        } else if cy > b.y && b.height == 1 {
            Anchor::BottomLeft
        } else {
            anchor
        },
        Anchor::TopRight => if cx < b.x && b.width == 1 {
            Anchor::TopLeft
        } else if cy > b.y && b.height == 1 {
            Anchor::BottomRight
        } else {
            anchor
        },
        Anchor::BottomLeft => if cx > b.x && b.width == 1 {
            Anchor::BottomRight
        } else if cy < b.y && b.height == 1 {
            Anchor::TopLeft
        } else {
            anchor
        },
        Anchor::BottomRight => if cx < b.x && b.width == 1 {
            Anchor::BottomLeft
        } else if cy < b.y && b.height == 1 {
            Anchor::TopRight
        } else {
            anchor
        },
    }
}

/// The right edge follows the cursor; the left edge stays.
pub open spec fn drag_right_spec(b: Bounds, s: Shrink, cx: int) -> (Bounds, Shrink) {
    let w = sat(cx - b.x + 1);
    (Bounds { width: w, ..b }, if w < b.width { Shrink::Right } else { s })
}

/// The bottom edge follows the cursor; the top edge stays.
pub open spec fn drag_bottom_spec(b: Bounds, s: Shrink, cy: int) -> (Bounds, Shrink) {
    let h = sat(cy - b.y + 1);
    (Bounds { height: h, ..b }, if h < b.height { Shrink::Bottom } else { s })
}

/// The top edge moves to the cursor's row, and the height grows or shrinks by one
/// depending on which way it moved.
pub open spec fn drag_top_spec(b: Bounds, s: Shrink, cy: int) -> (Bounds, Shrink) {
    if cy < b.y {
        (Bounds { y: cy as i32, height: sat(b.height + 1), ..b }, s)
    } else if cy > b.y {
        (Bounds { y: cy as i32, height: sat(b.height - 1), ..b }, Shrink::Top)
    } else {
        (b, s)
    }
}

/// The left edge moves to the cursor's column, and the width grows or shrinks by one
/// depending on which way it moved.
pub open spec fn drag_left_spec(b: Bounds, s: Shrink, cx: int) -> (Bounds, Shrink) {
    if cx < b.x {
        (Bounds { x: cx as i32, width: sat(b.width + 1), ..b }, s)
    } else if cx > b.x {
        (Bounds { x: cx as i32, width: sat(b.width - 1), ..b }, Shrink::Left)
    } else {
        (b, s)
    }
}

/// The bounds, the anchor and the pulled-in side after one resize step towards the cursor.
pub open spec fn drag_spec(b: Bounds, anchor: Anchor, cx: int, cy: int) -> (Bounds, Anchor, Shrink) {
    let a = adjust_anchor_spec(b, anchor, cx, cy);
    let s0 = Shrink::Unchanged;
    match a {
        Anchor::TopLeft => {
            let (b1, s1) = drag_top_spec(b, s0, cy);
            let (b2, s2) = drag_left_spec(b1, s1, cx);
            (b2, a, s2)
        },
        Anchor::TopRight => {
            let (b1, s1) = drag_top_spec(b, s0, cy);
            let (b2, s2) = drag_right_spec(b1, s1, cx);
            (b2, a, s2)
        },
        Anchor::BottomRight => {
            let (b1, s1) = drag_right_spec(b, s0, cx);
            let (b2, s2) = drag_bottom_spec(b1, s1, cy);
            (b2, a, s2)
        },
        Anchor::BottomLeft => {
            let (b1, s1) = drag_bottom_spec(b, s0, cy);
            let (b2, s2) = drag_left_spec(b1, s1, cx);
            (b2, a, s2)
        },
    }
}

fn adjust_anchor(b: Bounds, anchor: Anchor, cx: i32, cy: i32) -> (r: Anchor)
    ensures
        r == adjust_anchor_spec(b, anchor, cx as int, cy as int),
{
    match anchor {
        Anchor::TopLeft => {
            if cx > b.x && b.width == 1 {
                Anchor::TopRight
            } else if cy > b.y && b.height == 1 {
                Anchor::BottomLeft
            } else {
                anchor
            }
        },
        Anchor::TopRight => {
            if cx < b.x && b.width == 1 {
                Anchor::TopLeft
            } else if cy > b.y && b.height == 1 {
                Anchor::BottomRight
            } else {
                anchor
            }
        },
        Anchor::BottomLeft => {
            if cx > b.x && b.width == 1 {
                Anchor::BottomRight
            } else if cy < b.y && b.height == 1 {
                Anchor::TopLeft
            } else {
                anchor
            }
        },
        Anchor::BottomRight => {
            if cx < b.x && b.width == 1 {
                Anchor::BottomLeft
            } else if cy < b.y && b.height == 1 {
                Anchor::TopRight
            } else {
                anchor
            }
        },
    }
}

fn drag_right(b: Bounds, s: Shrink, cx: i32) -> (r: (Bounds, Shrink))
    ensures
        r == drag_right_spec(b, s, cx as int),
{
    let w = sat_i64(cx as i64 - b.x as i64 + 1);
    (Bounds { width: w, ..b }, if w < b.width { Shrink::Right } else { s })
}

fn drag_bottom(b: Bounds, s: Shrink, cy: i32) -> (r: (Bounds, Shrink))
    ensures
        r == drag_bottom_spec(b, s, cy as int),
{
    let h = sat_i64(cy as i64 - b.y as i64 + 1);
    (Bounds { height: h, ..b }, if h < b.height { Shrink::Bottom } else { s })
}

fn drag_top(b: Bounds, s: Shrink, cy: i32) -> (r: (Bounds, Shrink))
    ensures
        r == drag_top_spec(b, s, cy as int),
{
    if cy < b.y {
        (Bounds { y: cy, height: sat_i64(b.height as i64 + 1), ..b }, s)
    } else if cy > b.y {
        (Bounds { y: cy, height: sat_i64(b.height as i64 - 1), ..b }, Shrink::Top)
    } else {
        (b, s)
    }
}

fn drag_left(b: Bounds, s: Shrink, cx: i32) -> (r: (Bounds, Shrink))
    ensures
        r == drag_left_spec(b, s, cx as int),
{
    if cx < b.x {
        (Bounds { x: cx, width: sat_i64(b.width as i64 + 1), ..b }, s)
    } else if cx > b.x {
        (Bounds { x: cx, width: sat_i64(b.width as i64 - 1), ..b }, Shrink::Left)
    } else {
        (b, s)
    }
}

/// One resize step of bounds whose `anchor` corner follows the cursor.
pub fn drag_bounds(b: Bounds, anchor: Anchor, cursor: Vec2<u16>) -> (r: (Bounds, Anchor, Shrink))
    ensures
        r == drag_spec(b, anchor, cursor.x as int, cursor.y as int),
{
    let cx = cursor.x as i32;
    let cy = cursor.y as i32;
    let a = adjust_anchor(b, anchor, cx, cy);
    let s0 = Shrink::Unchanged;
    match a {
        Anchor::TopLeft => {
            let (b1, s1) = drag_top(b, s0, cy);
            let (b2, s2) = drag_left(b1, s1, cx);
            (b2, a, s2)
        },
        Anchor::TopRight => {
            let (b1, s1) = drag_top(b, s0, cy);
            let (b2, s2) = drag_right(b1, s1, cx);
            (b2, a, s2)
        },
        Anchor::BottomRight => {
            let (b1, s1) = drag_right(b, s0, cx);
            let (b2, s2) = drag_bottom(b1, s1, cy);
            (b2, a, s2)
        },
        Anchor::BottomLeft => {
            let (b1, s1) = drag_bottom(b, s0, cy);
            let (b2, s2) = drag_left(b1, s1, cx);
            (b2, a, s2)
        },
    }
}

} // verus!

verus! {

impl Rectangle {
    pub open spec fn bounds(&self) -> Bounds {
        Bounds { x: self.x, y: self.y, width: self.width, height: self.height }
    }

    /// A one-cell rectangle at the given position, with no text.
    pub fn new_at(x: i32, y: i32, ids: &mut crate::shape_id::ShapeIdStore) -> (r: Rectangle)
        requires
            old(ids).can_generate(),
        ensures
            r.x == x && r.y == y,
            r.width == 1 && r.height == 1,
            r.text@.len() == 0,
            r.shape_id == old(ids).current + 1,
            final(ids).current == r.shape_id,
            r.shrink == Shrink::Unchanged,
    {
        Rectangle {
            x,
            y,
            width: 1,
            height: 1,
            text: Vec::new(),
            shape_id: crate::shape_id::generate_shape_id(ids),
            shrink: Shrink::Unchanged,
        }
    }

    /// Where typing goes on inside the box: after the last character of the text,
    /// or the top left corner where the box has no inside.
    pub open spec fn inner_cursor_spec(&self) -> (i32, i32) {
        if self.width < 3 || self.height < 3 {
            (self.x, self.y)
        } else {
            let tw = self.width - 2;
            let n = self.text@.len() as int;
            (sat(self.x + 1 + n % tw), sat(self.y + 1 + n / tw))
        }
    }

    pub fn get_inner_cursor_position(&self) -> (r: (i32, i32))
        ensures
            r == self.inner_cursor_spec(),
    {
        if self.width < 3 || self.height < 3 {
            return (self.x, self.y);
        }
        let tw: u64 = (self.width - 2) as u64;
        let n: u64 = self.text.len() as u64;
        let col: u64 = n % tw;
        let row: u64 = n / tw;
        let cx: i64 = self.x as i64 + 1 + col as i64;
        let cy: i64 = if row > u32::MAX as u64 {
            i32::MAX as i64
        } else {
            self.y as i64 + 1 + row as i64
        };
        (sat_i64(cx), sat_i64(cy))
    }

    /// Adds a typed character to the text and moves the cursor after it.
    pub fn on_char(&mut self, key: char, cursor: &mut Cursor)
        ensures
            final(self).text@ == old(self).text@.push(key),
            final(self).bounds() == old(self).bounds(),
            final(self).shape_id == old(self).shape_id,
            final(self).shrink == old(self).shrink,
            final(cursor).position.x == final(self).inner_cursor_spec().0 as u16,
            final(cursor).position.y == final(self).inner_cursor_spec().1 as u16,
            final(cursor).saved_position == old(cursor).saved_position,
    {
        self.text.push(key);
        let (next_x, next_y) = self.get_inner_cursor_position();
        crate::cursor::set_position(cursor, Vec2 { x: next_x as u16, y: next_y as u16 });
    }

    /// Removes the last character of the text, if any, and moves the cursor after the rest.
    pub fn on_backspace(&mut self, cursor: &mut Cursor)
        ensures
            final(self).text@ == (if old(self).text@.len() > 0 {
                old(self).text@.drop_last()
            } else {
                old(self).text@
            }),
            final(self).bounds() == old(self).bounds(),
            final(self).shape_id == old(self).shape_id,
            final(self).shrink == old(self).shrink,
            final(cursor).position.x == final(self).inner_cursor_spec().0 as u16,
            final(cursor).position.y == final(self).inner_cursor_spec().1 as u16,
            final(cursor).saved_position == old(cursor).saved_position,
    {
        self.text.pop();
        let (next_x, next_y) = self.get_inner_cursor_position();
        crate::cursor::set_position(cursor, Vec2 { x: next_x as u16, y: next_y as u16 });
    }

    /// One resize step: the `anchor` corner follows the cursor.
    pub fn drag_corner(&mut self, anchor: &mut Anchor, cursor: Vec2<u16>)
        ensures
            final(self).bounds() == drag_spec(old(self).bounds(), *old(anchor), cursor.x as int, cursor.y as int).0,
            *final(anchor) == drag_spec(old(self).bounds(), *old(anchor), cursor.x as int, cursor.y as int).1,
            final(self).shrink == drag_spec(old(self).bounds(), *old(anchor), cursor.x as int, cursor.y as int).2,
            final(self).text == old(self).text,
            final(self).shape_id == old(self).shape_id,
    {
        let b = Bounds { x: self.x, y: self.y, width: self.width, height: self.height };
        let (nb, na, s) = drag_bounds(b, *anchor, cursor);
        self.x = nb.x;
        self.y = nb.y;
        self.width = nb.width;
        self.height = nb.height;
        self.shrink = s;
        *anchor = na;
    }

    /// How the position (cx, cy) lies against the box.
    pub open spec fn intersection_spec(&self, cx: int, cy: int) -> Intersection {
        let x0 = self.x as int;
        let y0 = self.y as int;
        let x1 = self.x + self.width - 1;
        let y1 = self.y + self.height - 1;
        if !(x0 <= cx <= x1 && y0 <= cy <= y1) {
            Intersection::Outside
        } else if cx == x1 && cy == y0 {
            Intersection::Edge(EdgeIntersection::Corner(Some(Anchor::TopRight)))
        } else if cx == x1 && cy == y1 {
            Intersection::Edge(EdgeIntersection::Corner(Some(Anchor::BottomRight)))
        } else if cx == x0 && cy == y0 {
            Intersection::Edge(EdgeIntersection::Corner(Some(Anchor::TopLeft)))
        } else if cx == x0 && cy == y1 {
            Intersection::Edge(EdgeIntersection::Corner(Some(Anchor::BottomLeft)))
        } else if cy == y0 || cx == x1 || cy == y1 || cx == x0 {
            Intersection::Edge(EdgeIntersection::Side)
        } else {
            Intersection::Inner
        }
    }

    pub fn get_intersection(&self, p: &Vec2<i32>) -> (r: Intersection)
        ensures
            r == self.intersection_spec(p.x as int, p.y as int),
    {
        let c_x = p.x as i64;
        let c_y = p.y as i64;
        let x_0 = self.x as i64;
        let y_0 = self.y as i64;
        let x_1 = self.x as i64 + self.width as i64 - 1;
        let y_1 = self.y as i64 + self.height as i64 - 1;

        if !(c_x >= x_0 && c_x <= x_1) || !(c_y >= y_0 && c_y <= y_1) {
            return Intersection::Outside;
        }
        let on_top = c_y == y_0;
        let on_bottom = c_y == y_1;
        let on_left = c_x == x_0;
        let on_right = c_x == x_1;

        if on_right && on_top {
            Intersection::Edge(EdgeIntersection::Corner(Some(Anchor::TopRight)))
        } else if on_right && on_bottom {
            Intersection::Edge(EdgeIntersection::Corner(Some(Anchor::BottomRight)))
        } else if on_left && on_top {
            Intersection::Edge(EdgeIntersection::Corner(Some(Anchor::TopLeft)))
        } else if on_left && on_bottom {
            Intersection::Edge(EdgeIntersection::Corner(Some(Anchor::BottomLeft)))
        } else if on_top || on_right || on_bottom || on_left {
            Intersection::Edge(EdgeIntersection::Side)
        } else {
            Intersection::Inner
        }
    }

    /// The four corners, clockwise from the top left.
    pub open spec fn corners_spec(&self) -> Seq<Vec2<i32>> {
        seq![
            Vec2 { x: self.x, y: self.y },
            Vec2 { x: sat(self.x + self.width - 1), y: self.y },
            Vec2 { x: sat(self.x + self.width - 1), y: sat(self.y + self.height - 1) },
            Vec2 { x: self.x, y: sat(self.y + self.height - 1) },
        ]
    }

    pub fn get_intersection_points(&self) -> (r: Vec<Vec2<i32>>)
        ensures
            r@ == self.corners_spec(),
    {
        let right = sat_i64(self.x as i64 + self.width as i64 - 1);
        let bottom = sat_i64(self.y as i64 + self.height as i64 - 1);
        let r = vec![
            Vec2 { x: self.x, y: self.y },
            Vec2 { x: right, y: self.y },
            Vec2 { x: right, y: bottom },
            Vec2 { x: self.x, y: bottom },
        ];
        assert(r@ =~= self.corners_spec());
        r
    }
}

} // verus!

verus! {

impl Rectangle {
    /// Every cell that a draw emits, the cleared strip included, has coordinates
    /// that an `i32` holds.
    pub open spec fn on_canvas(&self) -> bool {
        i32::MIN < self.x && i32::MIN < self.y && i32::MIN < self.x + self.width < i32::MAX
            && i32::MIN < self.y + self.height < i32::MAX
    }

    pub fn fits_canvas(&self) -> (r: bool)
        ensures
            r == self.on_canvas(),
    {
        let right: i64 = self.x as i64 + self.width as i64;
        let bottom: i64 = self.y as i64 + self.height as i64;
        let lo: i64 = i32::MIN as i64;
        let hi: i64 = i32::MAX as i64;
        i32::MIN < self.x && i32::MIN < self.y && lo < right && right < hi && lo < bottom && bottom < hi
    }

    pub open spec fn cols(&self) -> nat {
        if self.width > 0 { self.width as nat } else { 0 }
    }

    pub open spec fn rows(&self) -> nat {
        if self.height > 0 { self.height as nat } else { 0 }
    }

    /// The text character shown at an inner cell, filled row by row; blank past the text.
    pub open spec fn text_at(&self, col: int, row: int) -> char {
        let i = (col - 1) + (row - 1) * (self.width - 2);
        if 0 <= i < self.text@.len() {
            self.text@[i]
        } else {
            ' '
        }
    }

    /// Rounded corners, bars along the border, text inside.
    pub open spec fn glyph_at(&self, col: int, row: int) -> char {
        let first_row = row == 0;
        let last_row = row == self.height - 1;
        let first_col = col == 0;
        let last_col = col == self.width - 1;
        if first_row && first_col {
            CORNER_3_ROUNDED
        } else if first_row && last_col {
            CORNER_4_ROUNDED
        } else if last_row && last_col {
            CORNER_1_ROUNDED
        } else if last_row && first_col {
            CORNER_2_ROUNDED
        } else if first_row || last_row {
            HORIZONTAL_BAR
        } else if first_col || last_col {
            VERTICAL_BAR
        } else {
            self.text_at(col, row)
        }
    }

    pub open spec fn cell_point(&self, col: int, row: int) -> Point<i32> {
        Point {
            x: (self.x + col) as i32,
            y: (self.y + row) as i32,
            character: self.glyph_at(col, row),
            foreground: Color::Border,
            background: Color::BorderBackground,
        }
    }

    pub open spec fn row_points(&self, row: int) -> Seq<Point<i32>> {
        Seq::new(self.cols(), |c: int| self.cell_point(c, row))
    }

    /// The first `n` rows of the box, each from left to right.
    pub open spec fn rows_points(&self, n: int) -> Seq<Point<i32>>
        decreases n,
    {
        if n <= 0 {
            seq![]
        } else {
            self.rows_points(n - 1) + self.row_points(n - 1)
        }
    }

    /// Blank cells over the border line that the last resize left behind.
    pub open spec fn cleared_strip(&self) -> Seq<Point<i32>> {
        match self.shrink {
            Shrink::Right => Seq::new(self.rows(), |r: int| blank_point(self.x + self.width, self.y + r)),
            Shrink::Bottom => Seq::new(self.cols(), |c: int| blank_point(self.x + c, self.y + self.height)),
            Shrink::Top => Seq::new(self.cols(), |c: int| blank_point(self.x + c, self.y - 1)),
            Shrink::Left => Seq::new(self.rows(), |r: int| blank_point(self.x - 1, self.y + r)),
            Shrink::Unchanged => seq![],
        }
    }

    fn glyph(&self, col: i32, row: i32) -> (c: char)
        requires
            0 <= col < self.width,
            0 <= row < self.height,
        ensures
            c == self.glyph_at(col as int, row as int),
    {
        let first_row = row == 0;
        let last_row = row == self.height - 1;
        let first_col = col == 0;
        let last_col = col == self.width - 1;
        if first_row && first_col {
            CORNER_3_ROUNDED
        } else if first_row && last_col {
            CORNER_4_ROUNDED
        } else if last_row && last_col {
            CORNER_1_ROUNDED
        } else if last_row && first_col {
            CORNER_2_ROUNDED
        } else if first_row || last_row {
            HORIZONTAL_BAR
        } else if first_col || last_col {
            VERTICAL_BAR
        } else {
            let a: i64 = row as i64 - 1;
            let b: i64 = self.width as i64 - 2;
            assert(0 <= a < 0x8000_0000 && 0 <= b < 0x8000_0000);
            assert(0 <= a * b < 0x4000_0000_0000_0000) by (nonlinear_arith)
                requires
                    0 <= a < 0x8000_0000,
                    0 <= b < 0x8000_0000,
            ;
            let i: i64 = (col as i64 - 1) + a * b;
            if 0 <= i && (i as u64) < self.text.len() as u64 {
                self.text[i as usize]
            } else {
                ' '
            }
        }
    }

    fn push_strip_row(&self, points: &mut Vec<Point<i32>>, y: i32)
        requires
            self.on_canvas(),
            i32::MIN <= y < i32::MAX,
        ensures
            final(points)@ == old(points)@ + Seq::new(self.cols(), |c: int| blank_point(self.x + c, y as int)),
    {
        let mut c: i32 = 0;
        let ghost start = points@;
        while c < self.width
            invariant
                self.on_canvas(),
                0 <= c,
                c <= self.width || c == 0,
                points@ == start + Seq::new(c as nat, |k: int| blank_point(self.x + k, y as int)),
            decreases self.width - c,
        {
            points.push(Point { x: self.x + c, y, character: ' ', foreground: Color::Empty, background: Color::EmptyBackground });
            c = c + 1;
            assert(points@ =~= start + Seq::new(c as nat, |k: int| blank_point(self.x + k, y as int)));
        }
        assert(points@ =~= start + Seq::new(self.cols(), |k: int| blank_point(self.x + k, y as int)));
    }

    fn push_strip_col(&self, points: &mut Vec<Point<i32>>, x: i32)
        requires
            self.on_canvas(),
            i32::MIN <= x < i32::MAX,
        ensures
            final(points)@ == old(points)@ + Seq::new(self.rows(), |r: int| blank_point(x as int, self.y + r)),
    {
        let mut r: i32 = 0;
        let ghost start = points@;
        while r < self.height
            invariant
                self.on_canvas(),
                0 <= r,
                r <= self.height || r == 0,
                points@ == start + Seq::new(r as nat, |k: int| blank_point(x as int, self.y + k)),
            decreases self.height - r,
        {
            points.push(Point { x, y: self.y + r, character: ' ', foreground: Color::Empty, background: Color::EmptyBackground });
            r = r + 1;
            assert(points@ =~= start + Seq::new(r as nat, |k: int| blank_point(x as int, self.y + k)));
        }
        assert(points@ =~= start + Seq::new(self.rows(), |k: int| blank_point(x as int, self.y + k)));
    }
}

/// An empty cell, which clears what was drawn there.
pub open spec fn blank_point(x: int, y: int) -> Point<i32> {
    Point { x: x as i32, y: y as i32, character: ' ', foreground: Color::Empty, background: Color::EmptyBackground }
}

impl Draw for Rectangle {
    open spec fn drawable(&self) -> bool {
        self.on_canvas()
    }

    open spec fn drawn(&self) -> Seq<Point<i32>> {
        self.rows_points(self.height as int) + self.cleared_strip()
    }

    fn draw(&self) -> (r: Vec<Point<i32>>) {
        let mut points: Vec<Point<i32>> = Vec::new();
        let mut y: i32 = 0;
        while y < self.height
            invariant
                self.on_canvas(),
                0 <= y,
                y <= self.height || y == 0,
                points@ == self.rows_points(y as int),
            decreases self.height - y,
        {
            let mut x: i32 = 0;
            while x < self.width
                invariant
                    self.on_canvas(),
                    0 <= y < self.height,
                    0 <= x,
                    x <= self.width || x == 0,
                    points@ == self.rows_points(y as int) + self.row_points(y as int).take(x as int),
                decreases self.width - x,
            {
                let c = self.glyph(x, y);
                points.push(Point {
                    x: self.x + x,
                    y: self.y + y,
                    character: c,
                    foreground: Color::Border,
                    background: Color::BorderBackground,
                });
                assert(self.row_points(y as int).take(x + 1) =~= self.row_points(y as int).take(x as int).push(self.cell_point(x as int, y as int)));
                x = x + 1;
            }
            assert(self.row_points(y as int).take(x as int) =~= self.row_points(y as int));
            y = y + 1;
        }
        match self.shrink {
            Shrink::Right => self.push_strip_col(&mut points, self.x + self.width),
            Shrink::Bottom => self.push_strip_row(&mut points, self.y + self.height),
            Shrink::Top => self.push_strip_row(&mut points, self.y - 1),
            Shrink::Left => self.push_strip_col(&mut points, self.x - 1),
            Shrink::Unchanged => {},
        }
        assert(self.height <= 0 ==> self.rows_points(self.height as int) =~= seq![]);
        proof {
            if self.shrink is Unchanged {
                assert(points@ =~= self.drawn());
            }
        }
        points
    }
}

} // verus!
