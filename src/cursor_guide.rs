use vstd::prelude::*;

use crate::characters::{HORIZONTAL_BAR, VERTICAL_BAR};
use crate::draw::{Color, Draw, Point};
use crate::shape::Shape;
use crate::vec2::Vec2;

verus! {

/// Used for showing guides when the cursor lines up with an object in one dimension
pub trait GuidePoint {
    spec fn guide_spec(&self) -> Seq<Vec2<i32>>;

    fn get_guide_points(&self) -> (r: Vec<Vec2<i32>>)
        ensures
            r@ == self.guide_spec(),
    ;
}

impl GuidePoint for Shape {
    open spec fn guide_spec(&self) -> Seq<Vec2<i32>> {
        self.guide_points()
    }

    fn get_guide_points(&self) -> (r: Vec<Vec2<i32>>) {
        self.get_intersection_points()
    }
}

/// A line of bars from the cursor to the nearest shape corner or arrow end that shares
/// exactly one coordinate with it.
pub struct CursorGuide {
    pub points: Vec<Vec2<i32>>,
    pub cursor: Vec2<i32>,
}

/// The corners and ends of the first `k` shapes, in order.
pub open spec fn guide_points_prefix(shapes: Seq<Shape>, k: int) -> Seq<Vec2<i32>>
    decreases k,
{
    if k <= 0 {
        seq![]
    } else {
        guide_points_prefix(shapes, k - 1) + shapes[k - 1].guide_points()
    }
}

pub open spec fn aligned(p: Vec2<i32>, c: Vec2<i32>) -> bool {
    (p.x == c.x) != (p.y == c.y)
}

pub open spec fn abs(v: int) -> int {
    if v < 0 { -v } else { v }
}

pub open spec fn dist(p: Vec2<i32>, c: Vec2<i32>) -> int {
    abs(p.x - c.x) + abs(p.y - c.y)
}

/// The index of the first aligned point at the least distance among the first `k`,
/// or -1 where none of them is aligned.
pub open spec fn nearest_prefix(pts: Seq<Vec2<i32>>, c: Vec2<i32>, k: int) -> int
    decreases k,
{
    if k <= 0 {
        -1
    } else {
        let b = nearest_prefix(pts, c, k - 1);
        if aligned(pts[k - 1], c) && (b < 0 || dist(pts[k - 1], c) < dist(pts[b], c)) {
            k - 1
        } else {
            b
        }
    }
}

pub open spec fn guide_cell(x: int, y: int, character: char) -> Point<i32> {
    Point { x: x as i32, y: y as i32, character, foreground: Color::Guide, background: Color::EmptyBackground }
}

pub open spec fn min(a: int, b: int) -> int {
    if a < b { a } else { b }
}

pub open spec fn max(a: int, b: int) -> int {
    if a < b { b } else { a }
}

/// The bars strictly between the cursor and an aligned point.
pub open spec fn guide_line(p: Vec2<i32>, c: Vec2<i32>) -> Seq<Point<i32>> {
    if p.x == c.x {
        let lo = min(p.y as int, c.y as int);
        let hi = max(p.y as int, c.y as int);
        Seq::new((hi - lo - 1) as nat, |k: int| guide_cell(p.x as int, lo + 1 + k, VERTICAL_BAR))
    } else {
        let lo = min(p.x as int, c.x as int);
        let hi = max(p.x as int, c.x as int);
        Seq::new((hi - lo - 1) as nat, |k: int| guide_cell(lo + 1 + k, p.y as int, HORIZONTAL_BAR))
    }
}

/// The guide to the nearest aligned point, if there is one.
pub open spec fn guide_drawn(pts: Seq<Vec2<i32>>, c: Vec2<i32>) -> Seq<Point<i32>> {
    let b = nearest_prefix(pts, c, pts.len() as int);
    if b < 0 {
        seq![]
    } else {
        guide_line(pts[b], c)
    }
}

fn dist_exec(p: &Vec2<i32>, c: &Vec2<i32>) -> (r: u64)
    ensures
        r as int == dist(*p, *c),
{
    let dx: i64 = p.x as i64 - c.x as i64;
    let dy: i64 = p.y as i64 - c.y as i64;
    let ax: u64 = if dx < 0 { (-dx) as u64 } else { dx as u64 };
    let ay: u64 = if dy < 0 { (-dy) as u64 } else { dy as u64 };
    ax + ay
}

impl CursorGuide {
    pub fn new(shapes: &Vec<Shape>, cursor: Vec2<u16>) -> (r: CursorGuide)
        ensures
            r.points@ == guide_points_prefix(shapes@, shapes@.len() as int),
            r.cursor == (Vec2 { x: cursor.x as i32, y: cursor.y as i32 }),
    {
        let mut points: Vec<Vec2<i32>> = Vec::new();
        let mut i: usize = 0;
        while i < shapes.len()
            invariant
                i <= shapes@.len(),
                points@ == guide_points_prefix(shapes@, i as int),
            decreases shapes.len() - i,
        {
            let mut more = shapes[i].get_guide_points();
            points.append(&mut more);
            i = i + 1;
        }
        CursorGuide { points, cursor: Vec2 { x: cursor.x as i32, y: cursor.y as i32 } }
    }

    fn nearest(&self) -> (r: Option<usize>)
        ensures
            match r {
                Some(i) => i as int == nearest_prefix(self.points@, self.cursor, self.points@.len() as int),
                None => nearest_prefix(self.points@, self.cursor, self.points@.len() as int) < 0,
            },
    {
        let c = self.cursor;
        let mut best: Option<usize> = None;
        let mut best_dist: u64 = 0;
        let mut i: usize = 0;
        while i < self.points.len()
            invariant
                c == self.cursor,
                i <= self.points@.len(),
                match best {
                    Some(b) => b as int == nearest_prefix(self.points@, c, i as int) && b < i && best_dist as int
                        == dist(self.points@[b as int], c),
                    None => nearest_prefix(self.points@, c, i as int) < 0,
                },
            decreases self.points.len() - i,
        {
            let p = self.points[i];
            if (p.x == c.x) != (p.y == c.y) {
                let d = dist_exec(&p, &c);
                match best {
                    Some(_) => {
                        if d < best_dist {
                            best = Some(i);
                            best_dist = d;
                        }
                    },
                    None => {
                        best = Some(i);
                        best_dist = d;
                    },
                }
            }
            i = i + 1;
        }
        best
    }
}

impl Draw for CursorGuide {
    open spec fn drawable(&self) -> bool {
        true
    }

    open spec fn drawn(&self) -> Seq<Point<i32>> {
        guide_drawn(self.points@, self.cursor)
    }

    fn draw(&self) -> (r: Vec<Point<i32>>) {
        let mut out: Vec<Point<i32>> = Vec::new();
        let b = self.nearest();
        if let Some(b) = b {
            proof {
                lemma_nearest_in_range(self.points@, self.cursor, self.points@.len() as int);
            }
            let p = self.points[b];
            let c = self.cursor;
            if p.x == c.x {
                let lo = if p.y < c.y { p.y } else { c.y };
                let hi = if p.y < c.y { c.y } else { p.y };
                let mut i: i32 = lo;
                while (i as i64) + 1 < hi as i64
                    invariant
                        lo <= i < hi || (i == lo && lo == hi),
                        out@ == Seq::new((i - lo) as nat, |k: int| guide_cell(p.x as int, lo + 1 + k, VERTICAL_BAR)),
                    decreases hi - i,
                {
                    out.push(Point { x: p.x, y: i + 1, character: VERTICAL_BAR, foreground: Color::Guide, background: Color::EmptyBackground });
                    i = i + 1;
                    assert(out@ =~= Seq::new((i - lo) as nat, |k: int| guide_cell(p.x as int, lo + 1 + k, VERTICAL_BAR)));
                }
                assert(out@ =~= guide_line(p, c));
            } else {
                let lo = if p.x < c.x { p.x } else { c.x };
                let hi = if p.x < c.x { c.x } else { p.x };
                let mut i: i32 = lo;
                while (i as i64) + 1 < hi as i64
                    invariant
                        lo <= i < hi || (i == lo && lo == hi),
                        out@ == Seq::new((i - lo) as nat, |k: int| guide_cell(lo + 1 + k, p.y as int, HORIZONTAL_BAR)),
                    decreases hi - i,
                {
                    out.push(Point { x: i + 1, y: p.y, character: HORIZONTAL_BAR, foreground: Color::Guide, background: Color::EmptyBackground });
                    i = i + 1;
                    assert(out@ =~= Seq::new((i - lo) as nat, |k: int| guide_cell(lo + 1 + k, p.y as int, HORIZONTAL_BAR)));
                }
                assert(out@ =~= guide_line(p, c));
            }
        }
        out
    }
}

proof fn lemma_nearest_in_range(pts: Seq<Vec2<i32>>, c: Vec2<i32>, k: int)
    requires
        0 <= k <= pts.len(),
    ensures
        nearest_prefix(pts, c, k) < k,
        nearest_prefix(pts, c, k) >= 0 ==> aligned(pts[nearest_prefix(pts, c, k)], c),
    decreases k,
{
    if k > 0 {
        lemma_nearest_in_range(pts, c, k - 1);
    }
}

} // verus!
